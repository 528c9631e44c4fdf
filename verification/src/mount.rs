//! What mounting a portable directory decides: whether it may go ahead, the home directory
//! and its `AppData` layout under the link path, the environment variables it sets, and
//! which profile script runs.
use vstd::prelude::*;
use crate::text::{concat2, concat3, strings_view};
use crate::winpath::{get_disk, is_ascii_alpha, lemma_prefix_of_prefix, spec_prefix};
use crate::profile_env::pairs_view;
use crate::commands::{generate_random_string, is_digits};

verus! {

/// Why a mount is refused before anything is changed.
#[derive(Debug)]
pub enum MountError {
    /// The target path does not exist (holds the target path).
    TargetNotFound(String),
    /// The link path exists and replacing it was not asked for (holds the link path).
    LinkExists(String),
}

impl MountError {
    /// The message that goes with the error: `[path] not found` or `[path] already exists`.
    pub fn message(&self) -> (r: String)
        ensures
            r@ == (match self {
                MountError::TargetNotFound(p) => "["@ + p@ + "] not found"@,
                MountError::LinkExists(p) => "["@ + p@ + "] already exists"@,
            }),
    {
        match self {
            MountError::TargetNotFound(p) => concat3("[", p.as_str(), "] not found"),
            MountError::LinkExists(p) => concat3("[", p.as_str(), "] already exists"),
        }
    }
}

/// Whether a mount may go ahead, given whether the target and the link path exist.
/// `Ok(true)` means that the existing link path must be removed first.
pub fn check_mount(
    tpath: &str,
    lpath: &str,
    target_exists: bool,
    link_exists: bool,
    force: bool,
) -> (r: Result<bool, MountError>)
    ensures
        !target_exists ==> (r matches Err(MountError::TargetNotFound(p)) && p@ == tpath@),
        target_exists && link_exists && !force ==> (r matches Err(MountError::LinkExists(p))
            && p@ == lpath@),
        target_exists && (!link_exists || force) ==> r == Ok::<bool, MountError>(link_exists),
{
    if !target_exists {
        return Err(MountError::TargetNotFound(tpath.to_owned()));
    }
    if link_exists {
        if force {
            Ok(true)
        } else {
            Err(MountError::LinkExists(lpath.to_owned()))
        }
    } else {
        Ok(false)
    }
}

/// `base\name`.
pub open spec fn sub_path(base: Seq<char>, name: Seq<char>) -> Seq<char> {
    base + "\\"@ + name
}

/// `base\name`, the way paths under the link path are formed.
pub fn sub_path_exec(base: &str, name: &str) -> (r: String)
    ensures
        r@ == sub_path(base@, name@),
{
    concat3(base, "\\", name)
}

/// The directories that a mount points the user's environment at.
#[derive(Debug)]
pub struct MountPaths {
    /// `link\home`
    pub home: String,
    /// `home\AppData`
    pub app_data: String,
    /// `home\AppData\Roaming`
    pub roaming_app_data: String,
    /// `home\AppData\Local`
    pub local_app_data: String,
    /// `home\AppData\Local\Temp`
    pub temp: String,
}

pub open spec fn spec_home(lpath: Seq<char>, hpath: Seq<char>) -> Seq<char> {
    sub_path(lpath, hpath)
}

pub open spec fn spec_app_data(lpath: Seq<char>, hpath: Seq<char>) -> Seq<char> {
    sub_path(spec_home(lpath, hpath), "AppData"@)
}

pub open spec fn spec_roaming(lpath: Seq<char>, hpath: Seq<char>) -> Seq<char> {
    sub_path(spec_app_data(lpath, hpath), "Roaming"@)
}

pub open spec fn spec_local(lpath: Seq<char>, hpath: Seq<char>) -> Seq<char> {
    sub_path(spec_app_data(lpath, hpath), "Local"@)
}

pub open spec fn spec_temp(lpath: Seq<char>, hpath: Seq<char>) -> Seq<char> {
    sub_path(spec_local(lpath, hpath), "Temp"@)
}

/// The home directory and its `AppData` layout for a link path and a home name.
pub fn mount_paths(lpath: &str, hpath: &str) -> (r: MountPaths)
    ensures
        r.home@ == spec_home(lpath@, hpath@),
        r.app_data@ == spec_app_data(lpath@, hpath@),
        r.roaming_app_data@ == spec_roaming(lpath@, hpath@),
        r.local_app_data@ == spec_local(lpath@, hpath@),
        r.temp@ == spec_temp(lpath@, hpath@),
{
    let home = sub_path_exec(lpath, hpath);
    let app_data = sub_path_exec(home.as_str(), "AppData");
    let roaming_app_data = sub_path_exec(app_data.as_str(), "Roaming");
    let local_app_data = sub_path_exec(app_data.as_str(), "Local");
    let temp = sub_path_exec(local_app_data.as_str(), "Temp");
    MountPaths { home, app_data, roaming_app_data, local_app_data, temp }
}

/// The values that the host's own variables had before the mount (empty where unset).
#[derive(Debug)]
pub struct HostEnv {
    pub tmp: String,
    pub temp: String,
    pub home: String,
    pub appdata: String,
    pub homepath: String,
    pub homedrive: String,
    pub userprofile: String,
    pub localappdata: String,
}

/// The variables a mount sets, in the order it sets them: where link and target are (under
/// both the `PORTABLE_RUNNER_ENV_` and the `PORTABLE_DESKTOP_ENV_` names), the host's previous values of the variables it overrides, then the overrides.
pub open spec fn spec_mount_env(
    tpath: Seq<char>,
    lpath: Seq<char>,
    hpath: Seq<char>,
    host: HostEnv,
) -> Seq<(Seq<char>, Seq<char>)> {
    let home = spec_home(lpath, hpath);
    seq![
        ("PORTABLE_RUNNER_ENV_LINK_PATH"@, lpath),
        ("PORTABLE_RUNNER_ENV_TARGET_PATH"@, tpath),
        ("PORTABLE_DESKTOP_ENV_LINK_PATH"@, lpath),
        ("PORTABLE_DESKTOP_ENV_TARGET_PATH"@, tpath),
        ("PORTABLE_RUNNER_HOST_TMP"@, host.tmp@),
        ("PORTABLE_RUNNER_HOST_TEMP"@, host.temp@),
        ("PORTABLE_RUNNER_HOST_HOME"@, host.home@),
        ("PORTABLE_RUNNER_HOST_APPDATA"@, host.appdata@),
        ("PORTABLE_RUNNER_HOST_HOMEPATH"@, host.homepath@),
        ("PORTABLE_RUNNER_HOST_HOMEDRIVE"@, host.homedrive@),
        ("PORTABLE_RUNNER_HOST_USERPROFILE"@, host.userprofile@),
        ("PORTABLE_RUNNER_HOST_LOCALAPPDATA"@, host.localappdata@),
        ("TMP"@, spec_temp(lpath, hpath)),
        ("TEMP"@, spec_temp(lpath, hpath)),
        ("HOME"@, home),
        ("HOMEPATH"@, home),
        ("USERPROFILE"@, home),
        ("HOMEDRIVE"@, lpath.take(spec_prefix(lpath).unwrap().1)),
        ("APPDATA"@, spec_roaming(lpath, hpath)),
        ("LOCALAPPDATA"@, spec_local(lpath, hpath)),
    ]
}

fn entry(name: &str, value: &str) -> (r: (String, String))
    ensures
        r.0@ == name@,
        r.1@ == value@,
{
    (name.to_owned(), value.to_owned())
}

/// The variables that mounting `tpath` at `lpath`, with home `lpath\hpath`, sets, in order.
pub fn mount_env(tpath: &str, lpath: &str, hpath: &str, host: &HostEnv) -> (r: Vec<
    (String, String),
>)
    requires
        spec_prefix(lpath@) is Some,
    ensures
        pairs_view(r@) == spec_mount_env(tpath@, lpath@, hpath@, *host),
{
    let paths = mount_paths(lpath, hpath);
    let mut r: Vec<(String, String)> = Vec::new();
    r.push(entry("PORTABLE_RUNNER_ENV_LINK_PATH", lpath));
    r.push(entry("PORTABLE_RUNNER_ENV_TARGET_PATH", tpath));
    r.push(entry("PORTABLE_DESKTOP_ENV_LINK_PATH", lpath));
    r.push(entry("PORTABLE_DESKTOP_ENV_TARGET_PATH", tpath));
    r.push(entry("PORTABLE_RUNNER_HOST_TMP", host.tmp.as_str()));
    r.push(entry("PORTABLE_RUNNER_HOST_TEMP", host.temp.as_str()));
    r.push(entry("PORTABLE_RUNNER_HOST_HOME", host.home.as_str()));
    r.push(entry("PORTABLE_RUNNER_HOST_APPDATA", host.appdata.as_str()));
    r.push(entry("PORTABLE_RUNNER_HOST_HOMEPATH", host.homepath.as_str()));
    r.push(entry("PORTABLE_RUNNER_HOST_HOMEDRIVE", host.homedrive.as_str()));
    r.push(entry("PORTABLE_RUNNER_HOST_USERPROFILE", host.userprofile.as_str()));
    r.push(entry("PORTABLE_RUNNER_HOST_LOCALAPPDATA", host.localappdata.as_str()));
    r.push(entry("TMP", paths.temp.as_str()));
    r.push(entry("TEMP", paths.temp.as_str()));
    r.push(entry("HOME", paths.home.as_str()));
    r.push(entry("HOMEPATH", paths.home.as_str()));
    r.push(entry("USERPROFILE", paths.home.as_str()));
    r.push(entry("HOMEDRIVE", get_disk(lpath)));
    r.push(entry("APPDATA", paths.roaming_app_data.as_str()));
    r.push(entry("LOCALAPPDATA", paths.local_app_data.as_str()));
    assert(pairs_view(r@) =~= spec_mount_env(tpath@, lpath@, hpath@, *host));
    r
}

/// `p` names something inside the directory `dir`: `dir`, a `\\`, then more.
pub open spec fn is_inside(p: Seq<char>, dir: Seq<char>) -> bool {
    p.len() > dir.len() && p.take(dir.len() as int) == dir && p[dir.len() as int] == '\\'
}

proof fn lemma_sub_path_inside(base: Seq<char>, dir: Seq<char>, name: Seq<char>)
    requires
        base == dir || is_inside(base, dir),
    ensures
        is_inside(sub_path(base, name), dir),
{
    reveal_strlit("\\");
    let p = sub_path(base, name);
    assert(p.take(dir.len() as int) =~= base.take(dir.len() as int));
    if base == dir {
        assert(base.take(dir.len() as int) =~= dir);
        assert(p[dir.len() as int] == '\\');
    } else {
        assert(p[dir.len() as int] == base[dir.len() as int]);
    }
}

/// A mount records where the link and the target are, under both the `PORTABLE_RUNNER_ENV_`
/// and the `PORTABLE_DESKTOP_ENV_` names, and keeps the user's directories together:
/// `HOME`, `HOMEPATH` and `USERPROFILE` name one directory, `TMP` and `TEMP` another,
/// `HOMEDRIVE` is the link path's prefix, and every directory it points the environment at
/// lies inside the link path. (In the list, entries 12 to 19 are `TMP`, `TEMP`, `HOME`,
/// `HOMEPATH`, `USERPROFILE`, `HOMEDRIVE`, `APPDATA` and `LOCALAPPDATA`.)
pub proof fn lemma_mount_env_consistent(
    tpath: Seq<char>,
    lpath: Seq<char>,
    hpath: Seq<char>,
    host: HostEnv,
)
    requires
        spec_prefix(lpath) is Some,
    ensures
        ({
            let env = spec_mount_env(tpath, lpath, hpath, host);
            &&& env[0] == ("PORTABLE_RUNNER_ENV_LINK_PATH"@, lpath)
            &&& env[1] == ("PORTABLE_RUNNER_ENV_TARGET_PATH"@, tpath)
            &&& env[2] == ("PORTABLE_DESKTOP_ENV_LINK_PATH"@, lpath)
            &&& env[3] == ("PORTABLE_DESKTOP_ENV_TARGET_PATH"@, tpath)
            &&& env[14].1 == env[15].1 && env[15].1 == env[16].1
            &&& env[12].1 == env[13].1
            &&& lpath.take(env[17].1.len() as int) == env[17].1
            &&& is_inside(env[12].1, lpath)
            &&& is_inside(env[14].1, lpath)
            &&& is_inside(env[18].1, lpath)
            &&& is_inside(env[19].1, lpath)
            &&& is_inside(env[12].1, env[14].1)
            &&& is_inside(env[18].1, env[14].1)
            &&& is_inside(env[19].1, env[14].1)
        }),
{
    let home = spec_home(lpath, hpath);
    let app_data = spec_app_data(lpath, hpath);
    lemma_sub_path_inside(lpath, lpath, hpath);
    lemma_sub_path_inside(home, lpath, "AppData"@);
    lemma_sub_path_inside(home, home, "AppData"@);
    lemma_sub_path_inside(app_data, lpath, "Roaming"@);
    lemma_sub_path_inside(app_data, home, "Roaming"@);
    lemma_sub_path_inside(app_data, lpath, "Local"@);
    lemma_sub_path_inside(app_data, home, "Local"@);
    let local = spec_local(lpath, hpath);
    lemma_sub_path_inside(local, lpath, "Temp"@);
    lemma_sub_path_inside(local, home, "Temp"@);
    let n = spec_prefix(lpath).unwrap().1;
    crate::winpath::lemma_prefix_len(lpath);
    assert(lpath.take(n).len() == n);
}

/// What the environment holds for `name` once the first `n` variables of `vars` have been
/// set one after another: the value of the last of them named `name`, or `None` when none is.
pub open spec fn value_after_first(vars: Seq<(Seq<char>, Seq<char>)>, n: int, name: Seq<char>) -> Option<
    Seq<char>,
>
    decreases n,
{
    if n <= 0 {
        None
    } else if vars[n - 1].0 == name {
        Some(vars[n - 1].1)
    } else {
        value_after_first(vars, n - 1, name)
    }
}

/// What the environment holds for `name` once all the variables of `vars` have been set
/// one after another.
pub open spec fn value_after_setting(vars: Seq<(Seq<char>, Seq<char>)>, name: Seq<char>) -> Option<
    Seq<char>,
> {
    value_after_first(vars, vars.len() as int, name)
}

/// Once a mount's variables are set, the environment holds the host's previous value of
/// each variable that the mount overrides under its `PORTABLE_RUNNER_HOST_` name (its
/// previous `APPDATA` as `PORTABLE_RUNNER_HOST_APPDATA`, its previous `TMP` as
/// `PORTABLE_RUNNER_HOST_TMP`, and so on), the link and target paths under the
/// `PORTABLE_RUNNER_ENV_` and `PORTABLE_DESKTOP_ENV_` names, and the overrides themselves:
/// `HOME`, `HOMEPATH` and `USERPROFILE` are `link\home`, `APPDATA` is
/// `link\home\AppData\Roaming`, `LOCALAPPDATA` is `link\home\AppData\Local`, `TMP` and
/// `TEMP` are `link\home\AppData\Local\Temp`, and `HOMEDRIVE` is the link path's prefix.
pub proof fn lemma_mount_env_values(
    tpath: Seq<char>,
    lpath: Seq<char>,
    hpath: Seq<char>,
    host: HostEnv,
)
    requires
        spec_prefix(lpath) is Some,
    ensures
        ({
            let env = spec_mount_env(tpath, lpath, hpath, host);
            let home = lpath + "\\"@ + hpath;
            let local = home + "\\AppData\\Local"@;
            &&& value_after_setting(env, "PORTABLE_RUNNER_HOST_TMP"@) == Some(host.tmp@)
            &&& value_after_setting(env, "PORTABLE_RUNNER_HOST_TEMP"@) == Some(host.temp@)
            &&& value_after_setting(env, "PORTABLE_RUNNER_HOST_HOME"@) == Some(host.home@)
            &&& value_after_setting(env, "PORTABLE_RUNNER_HOST_APPDATA"@) == Some(host.appdata@)
            &&& value_after_setting(env, "PORTABLE_RUNNER_HOST_HOMEPATH"@) == Some(host.homepath@)
            &&& value_after_setting(env, "PORTABLE_RUNNER_HOST_HOMEDRIVE"@) == Some(
                host.homedrive@,
            )
            &&& value_after_setting(env, "PORTABLE_RUNNER_HOST_USERPROFILE"@) == Some(
                host.userprofile@,
            )
            &&& value_after_setting(env, "PORTABLE_RUNNER_HOST_LOCALAPPDATA"@) == Some(
                host.localappdata@,
            )
            &&& value_after_setting(env, "PORTABLE_RUNNER_ENV_LINK_PATH"@) == Some(lpath)
            &&& value_after_setting(env, "PORTABLE_RUNNER_ENV_TARGET_PATH"@) == Some(tpath)
            &&& value_after_setting(env, "PORTABLE_DESKTOP_ENV_LINK_PATH"@) == Some(lpath)
            &&& value_after_setting(env, "PORTABLE_DESKTOP_ENV_TARGET_PATH"@) == Some(tpath)
            &&& value_after_setting(env, "HOME"@) == Some(home)
            &&& value_after_setting(env, "HOMEPATH"@) == Some(home)
            &&& value_after_setting(env, "USERPROFILE"@) == Some(home)
            &&& value_after_setting(env, "APPDATA"@) == Some(home + "\\AppData\\Roaming"@)
            &&& value_after_setting(env, "LOCALAPPDATA"@) == Some(local)
            &&& value_after_setting(env, "TMP"@) == Some(local + "\\Temp"@)
            &&& value_after_setting(env, "TEMP"@) == Some(local + "\\Temp"@)
            &&& value_after_setting(env, "HOMEDRIVE"@) == Some(
                lpath.take(spec_prefix(lpath).unwrap().1),
            )
        }),
{
    reveal_with_fuel(value_after_first, 21);
    reveal_strlit("PORTABLE_RUNNER_ENV_LINK_PATH");
    reveal_strlit("PORTABLE_RUNNER_ENV_TARGET_PATH");
    reveal_strlit("PORTABLE_DESKTOP_ENV_LINK_PATH");
    reveal_strlit("PORTABLE_DESKTOP_ENV_TARGET_PATH");
    reveal_strlit("PORTABLE_RUNNER_HOST_TMP");
    reveal_strlit("PORTABLE_RUNNER_HOST_TEMP");
    reveal_strlit("PORTABLE_RUNNER_HOST_HOME");
    reveal_strlit("PORTABLE_RUNNER_HOST_APPDATA");
    reveal_strlit("PORTABLE_RUNNER_HOST_HOMEPATH");
    reveal_strlit("PORTABLE_RUNNER_HOST_HOMEDRIVE");
    reveal_strlit("PORTABLE_RUNNER_HOST_USERPROFILE");
    reveal_strlit("PORTABLE_RUNNER_HOST_LOCALAPPDATA");
    reveal_strlit("TMP");
    reveal_strlit("TEMP");
    reveal_strlit("HOME");
    reveal_strlit("HOMEPATH");
    reveal_strlit("USERPROFILE");
    reveal_strlit("HOMEDRIVE");
    reveal_strlit("APPDATA");
    reveal_strlit("LOCALAPPDATA");
    reveal_strlit("\\");
    reveal_strlit("AppData");
    reveal_strlit("Roaming");
    reveal_strlit("Local");
    reveal_strlit("Temp");
    reveal_strlit("\\AppData\\Local");
    reveal_strlit("\\AppData\\Roaming");
    reveal_strlit("\\Temp");
    let home = lpath + "\\"@ + hpath;
    assert(spec_home(lpath, hpath) =~= home);
    assert(spec_roaming(lpath, hpath) =~= home + "\\AppData\\Roaming"@);
    assert(spec_local(lpath, hpath) =~= home + "\\AppData\\Local"@);
    assert(spec_temp(lpath, hpath) =~= home + "\\AppData\\Local"@ + "\\Temp"@);
    // The names differ in length, but for a few pairs, which differ in one character.
    assert("PORTABLE_RUNNER_ENV_LINK_PATH"@.len() == 29);
    assert("PORTABLE_RUNNER_ENV_TARGET_PATH"@.len() == 31);
    assert("PORTABLE_DESKTOP_ENV_LINK_PATH"@.len() == 30);
    assert("PORTABLE_DESKTOP_ENV_TARGET_PATH"@.len() == 32);
    assert("PORTABLE_RUNNER_HOST_TMP"@.len() == 24);
    assert("PORTABLE_RUNNER_HOST_TEMP"@.len() == 25);
    assert("PORTABLE_RUNNER_HOST_HOME"@.len() == 25);
    assert("PORTABLE_RUNNER_HOST_APPDATA"@.len() == 28);
    assert("PORTABLE_RUNNER_HOST_HOMEPATH"@.len() == 29);
    assert("PORTABLE_RUNNER_HOST_HOMEDRIVE"@.len() == 30);
    assert("PORTABLE_RUNNER_HOST_USERPROFILE"@.len() == 32);
    assert("PORTABLE_RUNNER_HOST_LOCALAPPDATA"@.len() == 33);
    assert("TMP"@.len() == 3);
    assert("TEMP"@.len() == 4);
    assert("HOME"@.len() == 4);
    assert("HOMEPATH"@.len() == 8);
    assert("USERPROFILE"@.len() == 11);
    assert("HOMEDRIVE"@.len() == 9);
    assert("APPDATA"@.len() == 7);
    assert("LOCALAPPDATA"@.len() == 12);
    assert("PORTABLE_RUNNER_ENV_LINK_PATH"@[16] != "PORTABLE_RUNNER_HOST_HOMEPATH"@[16]);
    assert("PORTABLE_DESKTOP_ENV_LINK_PATH"@[9] != "PORTABLE_RUNNER_HOST_HOMEDRIVE"@[9]);
    assert("PORTABLE_DESKTOP_ENV_TARGET_PATH"@[9] != "PORTABLE_RUNNER_HOST_USERPROFILE"@[9]);
    assert("PORTABLE_RUNNER_HOST_TEMP"@[21] != "PORTABLE_RUNNER_HOST_HOME"@[21]);
    assert("TEMP"@[1] != "HOME"@[1]);
}

/// Once a mount's variables are set, `HOMEDRIVE` is the link path's prefix, exactly as the
/// link path writes it and no more of it: for a link path that starts with a drive letter
/// and `:` (such as `X:\portable\work`), those two characters (`X:`). Read as a path,
/// `HOMEDRIVE` has the same prefix as the link path, of the same kind, and nothing after it.
pub proof fn lemma_mount_env_homedrive(
    tpath: Seq<char>,
    lpath: Seq<char>,
    hpath: Seq<char>,
    host: HostEnv,
)
    requires
        spec_prefix(lpath) is Some,
    ensures
        ({
            let drive = value_after_setting(spec_mount_env(tpath, lpath, hpath, host), "HOMEDRIVE"@);
            let n = spec_prefix(lpath).unwrap().1;
            &&& drive == Some(lpath.take(n))
            &&& spec_prefix(drive.unwrap()) == spec_prefix(lpath)
            &&& drive.unwrap().len() == n
            &&& lpath.len() >= 2 && is_ascii_alpha(lpath[0]) && lpath[1] == ':' ==> drive == Some(
                seq![lpath[0], ':'],
            )
        }),
{
    lemma_mount_env_values(tpath, lpath, hpath, host);
    lemma_prefix_of_prefix(lpath);
    crate::winpath::lemma_prefix_len(lpath);
    if lpath.len() >= 2 && is_ascii_alpha(lpath[0]) && lpath[1] == ':' {
        assert(lpath.take(2) =~= seq![lpath[0], ':']);
    }
}

/// The line a shell echoes to mark where a profile's own output ends: `.env.<token>.tmp`.
pub fn env_marker(token: &str) -> (r: String)
    ensures
        r@ == ".env."@ + token@ + ".tmp"@,
{
    concat3(".env.", token, ".tmp")
}

/// A fresh marker line, with thirty-two random digits as its token.
pub fn new_env_marker() -> (r: String)
    ensures
        exists|token: Seq<char>| is_digits(token, 32) && r@ == ".env."@ + token + ".tmp"@,
{
    proof {
        reveal_strlit("1234567890");
    }
    let token = generate_random_string(32, "1234567890");
    let r = env_marker(token.as_str());
    assert(is_digits(token@, 32) && r@ == ".env."@ + token@ + ".tmp"@);
    r
}

/// `/D /C <profile> & ECHO <marker> & SET`.
pub open spec fn spec_profile_args(profile: Seq<char>, marker: Seq<char>) -> Seq<Seq<char>> {
    seq!["/D"@, "/C"@, profile, "&"@, "ECHO"@, marker, "&"@, "SET"@]
}

/// The arguments to the command interpreter that run a profile script, echo the marker,
/// and list the environment: `/D /C <profile> & ECHO <marker> & SET`.
pub fn profile_command_args(profile: &str, marker: &str) -> (r: Vec<String>)
    ensures
        strings_view(r@) == spec_profile_args(profile@, marker@),
{
    let mut r: Vec<String> = Vec::new();
    r.push("/D".to_owned());
    r.push("/C".to_owned());
    r.push(profile.to_owned());
    r.push("&".to_owned());
    r.push("ECHO".to_owned());
    r.push(marker.to_owned());
    r.push("&".to_owned());
    r.push("SET".to_owned());
    assert(strings_view(r@) =~= spec_profile_args(profile@, marker@));
    r
}

/// What a new profile script holds.
pub const DEFAULT_PROFILE: &'static str = r#"@ECHO OFF

::----------------------------------------------------------------------
:: PortableRunner profile script.
::----------------------------------------------------------------------

"#;

/// The profile script that a mount runs under the home directory.
#[derive(Clone, Copy, Debug, PartialEq, Eq, Structural)]
pub enum ProfileChoice {
    /// `.profile.cmd`
    Cmd,
    /// `.profile.bat`
    Bat,
    /// Neither exists.
    NoProfile,
}

/// `.profile.cmd` when it exists, else `.profile.bat` when that exists, else none.
pub fn choose_profile(cmd_exists: bool, bat_exists: bool) -> (r: ProfileChoice)
    ensures
        cmd_exists ==> r == ProfileChoice::Cmd,
        !cmd_exists && bat_exists ==> r == ProfileChoice::Bat,
        !cmd_exists && !bat_exists ==> r == ProfileChoice::NoProfile,
{
    if cmd_exists {
        ProfileChoice::Cmd
    } else if bat_exists {
        ProfileChoice::Bat
    } else {
        ProfileChoice::NoProfile
    }
}

/// The file name of a profile script.
pub fn profile_file_name(choice: ProfileChoice) -> (r: Option<&'static str>)
    ensures
        choice == ProfileChoice::Cmd ==> (r matches Some(n) && n@ == ".profile.cmd"@),
        choice == ProfileChoice::Bat ==> (r matches Some(n) && n@ == ".profile.bat"@),
        choice == ProfileChoice::NoProfile ==> r is None,
{
    match choice {
        ProfileChoice::Cmd => Some(".profile.cmd"),
        ProfileChoice::Bat => Some(".profile.bat"),
        ProfileChoice::NoProfile => None,
    }
}

/// The profile script that the runner runs, and whether it must first create it:
/// `.profile.cmd` when it exists, else `.profile.bat` when that exists, else a new
/// `.profile.cmd` (holding `DEFAULT_PROFILE`).
pub fn runner_profile(cmd_exists: bool, bat_exists: bool) -> (r: (&'static str, bool))
    ensures
        cmd_exists ==> r.0@ == ".profile.cmd"@ && !r.1,
        !cmd_exists && bat_exists ==> r.0@ == ".profile.bat"@ && !r.1,
        !cmd_exists && !bat_exists ==> r.0@ == ".profile.cmd"@ && r.1,
{
    match profile_file_name(choose_profile(cmd_exists, bat_exists)) {
        Some(name) => (name, false),
        None => (".profile.cmd", true),
    }
}

} // verus!
