use portable_runner::winpath::{get_disk, has_disk, has_root, path_prefix, PrefixKind};

#[test]
fn disk_prefix_of_link_path() {
    assert_eq!(get_disk("X:\\work"), "X:");
    assert!(has_disk("X:\\work"));
    assert_eq!(path_prefix("T:\\work"), Some((PrefixKind::Disk, 2)));
}

#[test]
fn drive_alone_and_drive_relative() {
    assert_eq!(get_disk("C:"), "C:");
    assert_eq!(get_disk("c:foo"), "c:");
    assert!(!has_root("C:"));
    assert!(!has_root("c:foo"));
    assert!(has_root("C:\\x"));
    assert!(has_root("C:/x"));
}

#[test]
fn no_prefix() {
    assert!(!has_disk("work"));
    assert!(!has_disk("1:\\x"));
    assert!(!has_disk("\\work"));
    assert_eq!(path_prefix("relative\\dir"), None);
    assert!(has_root("\\work"));
    assert!(has_root("/work"));
    assert!(!has_root("work"));
    assert!(!has_root(""));
}

#[test]
fn unc_prefixes() {
    assert_eq!(get_disk("\\\\server\\share\\dir"), "\\\\server\\share");
    assert_eq!(get_disk("//server/share/dir"), "//server/share");
    assert_eq!(path_prefix("\\\\server\\share"), Some((PrefixKind::UNC, 14)));
    assert!(!has_disk("\\\\server"));
    assert!(!has_disk("\\\\server\\"));
    assert!(!has_disk("\\\\\\share"));
    assert!(has_root("\\\\server\\share"));
}

#[test]
fn verbatim_prefixes() {
    assert_eq!(path_prefix("\\\\?\\C:\\x"), Some((PrefixKind::VerbatimDisk, 6)));
    assert_eq!(path_prefix("\\\\?\\C:"), Some((PrefixKind::VerbatimDisk, 6)));
    assert_eq!(get_disk("\\\\?\\C:x\\y"), "\\\\?\\C:x");
    assert_eq!(path_prefix("\\\\?\\C:x\\y"), Some((PrefixKind::Verbatim, 7)));
    assert_eq!(get_disk("\\\\?\\UNC\\srv\\sh\\x"), "\\\\?\\UNC\\srv\\sh");
    assert_eq!(get_disk("\\\\?\\UNC\\srv"), "\\\\?\\UNC\\srv");
    assert_eq!(path_prefix("\\\\?\\UNC\\srv\\sh"), Some((PrefixKind::VerbatimUNC, 14)));
    assert_eq!(get_disk("\\\\?\\foo/bar\\baz"), "\\\\?\\foo/bar");
    assert!(has_root("\\\\?\\foo"));
}

#[test]
fn forward_slashes_do_not_make_a_verbatim_prefix() {
    // `//?/x` reads as a share `x` on a server named `?`.
    assert_eq!(path_prefix("//?/x"), Some((PrefixKind::UNC, 5)));
}

#[test]
fn device_prefixes() {
    assert_eq!(get_disk("\\\\.\\COM1"), "\\\\.\\COM1");
    assert_eq!(get_disk("//./pipe/name"), "//./pipe");
    assert_eq!(path_prefix("\\\\.\\COM1"), Some((PrefixKind::DeviceNS, 8)));
}

#[test]
fn prefix_read_again_is_the_same() {
    for p in [
        "C:\\a",
        "\\\\server\\share\\x",
        "\\\\?\\UNC\\srv\\sh\\y",
        "\\\\?\\C:\\z",
        "\\\\?\\vol\\w",
        "\\\\.\\dev\\v",
    ] {
        let d = get_disk(p);
        assert_eq!(get_disk(d), d);
        assert_eq!(path_prefix(d), path_prefix(p));
    }
}

#[test]
fn appending_keeps_the_prefix() {
    for p in ["X:\\work", "C:", "\\\\srv\\sh", "\\\\?\\C:", "\\\\?\\vol", "\\\\.\\COM1", "\\\\?\\UNC\\srv\\sh"] {
        let longer = format!("{}\\sub", p);
        assert_eq!(get_disk(&longer), get_disk(p));
    }
    // The exceptions: the appended part becomes the share, or makes a verbatim UNC prefix.
    assert_eq!(get_disk("\\\\?\\UNC\\srv\\sub"), "\\\\?\\UNC\\srv\\sub");
    assert_eq!(get_disk("\\\\?\\UNC\\sub"), "\\\\?\\UNC\\sub");
    assert_eq!(get_disk("\\\\?\\UNC\\srv\\"), "\\\\?\\UNC\\srv");
}

#[test]
fn verbatim_drive_ends_at_a_separator() {
    assert_eq!(path_prefix("\\\\?\\C:/x"), Some((PrefixKind::VerbatimDisk, 6)));
}
