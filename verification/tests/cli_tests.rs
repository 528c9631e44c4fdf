use portable_runner::cli::{link_path_has_disk_and_root, parse_cli_args};

fn args(a: &[&str]) -> Vec<String> {
    a.iter().map(|s| s.to_string()).collect()
}

#[test]
fn plain_target_and_link() {
    let r = parse_cli_args(&args(&["PortableDesktopCli", "E:\\test", "X:\\work"]));
    assert!(!r.force);
    assert_eq!(r.arg_index, 1);
    assert_eq!(r.target.as_deref(), Some("E:\\test"));
    assert_eq!(r.link.as_deref(), Some("X:\\work"));
    assert_eq!(r.home_name, ".home");
}

#[test]
fn home_name_given() {
    let r = parse_cli_args(&args(&["cli", "E:\\test", "X:\\work", "myhome"]));
    assert_eq!(r.home_name, "myhome");
}

#[test]
fn force_flags() {
    let r = parse_cli_args(&args(&["cli", "-f", "E:\\test", "X:\\work"]));
    assert!(r.force);
    assert_eq!(r.arg_index, 2);
    assert_eq!(r.target.as_deref(), Some("E:\\test"));
    assert_eq!(r.link.as_deref(), Some("X:\\work"));
    // The home name follows the link path; here it is not given.
    assert_eq!(r.home_name, ".home");

    let r = parse_cli_args(&args(&["cli", "-f", "E:\\test", "X:\\work", "h"]));
    assert!(r.force);
    assert_eq!(r.home_name, "h");

    let r = parse_cli_args(&args(&["cli", "--force", "-x", "E:\\t"]));
    assert!(r.force);
    assert_eq!(r.arg_index, 3);
    assert_eq!(r.target.as_deref(), Some("E:\\t"));
    assert_eq!(r.link, None);
}

#[test]
fn options_after_the_first_positional_are_not_read() {
    let r = parse_cli_args(&args(&["cli", "E:\\t", "-f"]));
    assert!(!r.force);
    assert_eq!(r.link.as_deref(), Some("-f"));
}

#[test]
fn unknown_options_and_missing_paths() {
    let r = parse_cli_args(&args(&["cli", "-v"]));
    assert!(!r.force);
    assert_eq!(r.arg_index, 1);
    assert_eq!(r.target.as_deref(), Some("-v"));
    assert_eq!(r.link, None);

    let r = parse_cli_args(&args(&["cli"]));
    assert_eq!(r.arg_index, 1);
    assert_eq!(r.target, None);
    assert_eq!(r.link, None);

    let r = parse_cli_args(&args(&[]));
    assert_eq!(r.target, None);
    assert_eq!(r.home_name, ".home");
}

#[test]
fn link_path_shape() {
    assert!(link_path_has_disk_and_root("X:\\work"));
    assert!(!link_path_has_disk_and_root("X:work"));
    assert!(!link_path_has_disk_and_root("\\work"));
    assert!(link_path_has_disk_and_root("\\\\srv\\share"));
}
