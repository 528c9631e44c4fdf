use portable_runner::profile_env::parse_profile_env;

fn pairs(v: &[(&str, &str)]) -> Vec<(String, String)> {
    v.iter().map(|(a, b)| (a.to_string(), b.to_string())).collect()
}

#[test]
fn reads_variables_after_marker() {
    let out = "hello from profile\r\nFOO=ignored\r\n.env.123.tmp\r\nHOME=X:\\work\\.home\r\nPATH=C:\\a;C:\\b\r\n";
    assert_eq!(
        parse_profile_env(out, ".env.123.tmp"),
        pairs(&[("HOME", "X:\\work\\.home"), ("PATH", "C:\\a;C:\\b")])
    );
}

#[test]
fn lines_are_trimmed_and_split_at_first_equals() {
    let out = "  .env.1.tmp  \n  A=b=c  \n\tnot a variable\n=empty name\nLAST=";
    assert_eq!(
        parse_profile_env(out, ".env.1.tmp"),
        pairs(&[("A", "b=c"), ("", "empty name"), ("LAST", "")])
    );
}

#[test]
fn nothing_without_marker() {
    assert_eq!(parse_profile_env("A=1\nB=2\n", ".env.9.tmp"), pairs(&[]));
    assert_eq!(parse_profile_env("", ".env.9.tmp"), pairs(&[]));
}

#[test]
fn first_marker_starts_the_listing() {
    let out = "M\nA=1\nM\nB=2";
    assert_eq!(parse_profile_env(out, "M"), pairs(&[("A", "1"), ("B", "2")]));
}

#[test]
fn unicode_white_space_is_trimmed() {
    let out = "\u{3000}M\u{a0}\n\u{2003}K=v\u{85}\n";
    assert_eq!(parse_profile_env(out, "M"), pairs(&[("K", "v")]));
}
