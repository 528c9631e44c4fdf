//! The command lines and scripts through which the runner starts programs, and the names
//! it gives to what it creates.
use vstd::prelude::*;
use crate::text::{concat2, concat3, join_from, join_with, strings_view};

verus! {

/// Whether `s` is exactly `n` characters, each one of `charset`.
pub open spec fn drawn_from(s: Seq<char>, n: nat, charset: Seq<char>) -> bool {
    &&& s.len() == n
    &&& forall|i: int| 0 <= i < s.len() ==> charset.contains(#[trigger] s[i])
}

/// A random string of `length` characters drawn from `text` (`random_string::generate`).
/// What is stated of it holds of every outcome: its length and that each character comes
/// from `text`; which characters come out is left to chance. The call panics on an empty
/// `text`, and on a length too large to reserve.
#[verifier::external_body]
pub fn generate_random_string(length: usize, text: &str) -> (r: String)
    requires
        text@.len() > 0,
        length <= isize::MAX,
    ensures
        drawn_from(r@, length as nat, text@),
{
    random_string::generate(length, text)
}

pub open spec fn is_digits(s: Seq<char>, n: nat) -> bool {
    drawn_from(s, n, "1234567890"@)
}

/// The name of a temporary script: `.pr.tmp.<token>.cmd`.
pub fn temp_script_name(token: &str) -> (r: String)
    ensures
        r@ == ".pr.tmp."@ + token@ + ".cmd"@,
{
    concat3(".pr.tmp.", token, ".cmd")
}

/// A fresh temporary script name, with sixteen random digits as its token.
pub fn new_temp_script_name() -> (r: String)
    ensures
        exists|token: Seq<char>| is_digits(token, 16) && r@ == ".pr.tmp."@ + token + ".cmd"@,
{
    proof {
        reveal_strlit("1234567890");
    }
    let token = generate_random_string(16, "1234567890");
    let r = temp_script_name(token.as_str());
    assert(is_digits(token@, 16) && r@ == ".pr.tmp."@ + token@ + ".cmd"@);
    r
}

/// What a temporary script holds: a switch to the UTF-8 code page, then `text`.
pub fn temp_script_content(text: &str) -> (r: String)
    ensures
        r@ == "chcp 65001\r\n"@ + text@,
{
    concat2("chcp 65001\r\n", text)
}

/// The script line that starts a user's command in a window of its own:
/// `START "PortableRunner" <command>`.
pub fn start_script_line(cmd_str: &str) -> (r: String)
    ensures
        r@ == "START \"PortableRunner\" "@ + cmd_str@,
{
    concat2("START \"PortableRunner\" ", cmd_str)
}

/// The command line that starts a program in the home directory from its name and its
/// arguments: `START /D %HOME% <program> <arguments joined by spaces>`.
pub fn start_command(cmd_strs: &Vec<String>) -> (r: String)
    requires
        cmd_strs@.len() >= 1,
    ensures
        r@ == "START /D %HOME% "@ + cmd_strs@[0]@ + " "@ + join_with(
            strings_view(cmd_strs@).skip(1),
            " "@,
        ),
{
    let first = concat3("START /D %HOME% ", cmd_strs[0].as_str(), " ");
    let rest = join_from(cmd_strs, 1, " ");
    concat2(first.as_str(), rest.as_str())
}

/// The window title (and tray tooltip) while a link is mounted:
/// `PortableRunner (<link> <=> <target>)`.
pub fn window_title(lpath: &str, tpath: &str) -> (r: String)
    ensures
        r@ == "PortableRunner ("@ + lpath@ + " <=> "@ + tpath@ + ")"@,
{
    let a = concat3("PortableRunner (", lpath, " <=> ");
    concat3(a.as_str(), tpath, ")")
}

/// A `file://` URL for a path.
pub fn file_url(path: &str) -> (r: String)
    ensures
        r@ == "file://"@ + path@,
{
    concat2("file://", path)
}

/// For each entry name of the link directory, the path of the same name under the target.
pub fn mirror_paths(tpath: &str, names: &Vec<String>) -> (r: Vec<String>)
    ensures
        r@.len() == names@.len(),
        forall|i: int| 0 <= i < r@.len() ==> (#[trigger] r@[i])@ == tpath@ + "\\"@ + names@[i]@,
{
    let mut r: Vec<String> = Vec::new();
    let mut i: usize = 0;
    while i < names.len()
        invariant
            i <= names@.len(),
            r@.len() == i,
            forall|j: int| 0 <= j < i ==> (#[trigger] r@[j])@ == tpath@ + "\\"@ + names@[j]@,
        decreases names@.len() - i,
    {
        r.push(concat3(tpath, "\\", names[i].as_str()));
        i = i + 1;
    }
    r
}

/// The two lines the console program prints once the link is up:
/// `<link> <<===>> <target>` and `%HOME% => <home>`.
pub fn mount_banner(lpath: &str, tpath: &str, home: &str) -> (r: (String, String))
    ensures
        r.0@ == lpath@ + " <<===>> "@ + tpath@,
        r.1@ == "%HOME% => "@ + home@,
{
    (concat3(lpath, " <<===>> ", tpath), concat2("%HOME% => ", home))
}

} // verus!
