use portable_runner::commands::{
    file_url, generate_random_string, mirror_paths, mount_banner, new_temp_script_name,
    start_command, start_script_line, temp_script_content, temp_script_name, window_title,
};

fn strings(a: &[&str]) -> Vec<String> {
    a.iter().map(|s| s.to_string()).collect()
}

#[test]
fn random_strings_have_length_and_charset() {
    let s = generate_random_string(16, "1234567890");
    assert_eq!(s.chars().count(), 16);
    assert!(s.chars().all(|c| "1234567890".contains(c)));
    let u = generate_random_string(6, "ó❤⚙");
    assert_eq!(u.chars().count(), 6);
    assert!(u.chars().all(|c| "ó❤⚙".contains(c)));
    assert_eq!(generate_random_string(0, "ab"), "");
}

#[test]
fn temp_scripts() {
    assert_eq!(temp_script_name("0123456789012345"), ".pr.tmp.0123456789012345.cmd");
    let n = new_temp_script_name();
    assert_eq!(n.len(), 8 + 16 + 4);
    assert!(n.starts_with(".pr.tmp.") && n.ends_with(".cmd"));
    assert!(n[8..24].chars().all(|c| c.is_ascii_digit()));
    assert_eq!(temp_script_content("START x"), "chcp 65001\r\nSTART x");
    assert_eq!(start_script_line("notepad a.txt"), "START \"PortableRunner\" notepad a.txt");
}

#[test]
fn start_commands() {
    assert_eq!(start_command(&strings(&["msedge", "github.com"])), "START /D %HOME% msedge github.com");
    assert_eq!(start_command(&strings(&["explorer"])), "START /D %HOME% explorer ");
    assert_eq!(start_command(&strings(&["a", "b", "c d", "e"])), "START /D %HOME% a b c d e");
}

#[test]
fn titles_urls_and_banners() {
    assert_eq!(window_title("X:\\work", "E:\\test"), "PortableRunner (X:\\work <=> E:\\test)");
    assert_eq!(file_url("E:\\test"), "file://E:\\test");
    let (a, b) = mount_banner("X:\\work", "E:\\test", "X:\\work\\.home");
    assert_eq!(a, "X:\\work <<===>> E:\\test");
    assert_eq!(b, "%HOME% => X:\\work\\.home");
}

#[test]
fn mirrored_entry_paths() {
    assert_eq!(
        mirror_paths("E:\\test", &strings(&["a", "b.txt"])),
        strings(&["E:\\test\\a", "E:\\test\\b.txt"])
    );
    assert!(mirror_paths("E:\\t", &Vec::new()).is_empty());
}
