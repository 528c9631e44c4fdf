use portable_runner::mount::{
    check_mount, choose_profile, env_marker, mount_env, mount_paths, new_env_marker,
    profile_command_args, profile_file_name, HostEnv, MountError, ProfileChoice,
};

fn host() -> HostEnv {
    HostEnv {
        tmp: "C:\\Users\\me\\AppData\\Local\\Temp".to_string(),
        temp: "C:\\Users\\me\\AppData\\Local\\Temp".to_string(),
        home: "".to_string(),
        appdata: "C:\\Users\\me\\AppData\\Roaming".to_string(),
        homepath: "\\Users\\me".to_string(),
        homedrive: "C:".to_string(),
        userprofile: "C:\\Users\\me".to_string(),
        localappdata: "C:\\Users\\me\\AppData\\Local".to_string(),
    }
}

#[test]
fn home_layout_under_link() {
    let p = mount_paths("X:\\work", ".home");
    assert_eq!(p.home, "X:\\work\\.home");
    assert_eq!(p.app_data, "X:\\work\\.home\\AppData");
    assert_eq!(p.roaming_app_data, "X:\\work\\.home\\AppData\\Roaming");
    assert_eq!(p.local_app_data, "X:\\work\\.home\\AppData\\Local");
    assert_eq!(p.temp, "X:\\work\\.home\\AppData\\Local\\Temp");
}

#[test]
fn environment_after_mount() {
    let env = mount_env("E:\\test", "X:\\work", ".home", &host());
    let get = |k: &str| env.iter().rev().find(|(n, _)| n == k).map(|(_, v)| v.clone());
    assert_eq!(env.len(), 20);
    assert_eq!(get("HOME").as_deref(), Some("X:\\work\\.home"));
    assert_eq!(get("HOMEDRIVE").as_deref(), Some("X:"));
    assert_eq!(get("HOMEPATH").as_deref(), Some("X:\\work\\.home"));
    assert_eq!(get("USERPROFILE").as_deref(), Some("X:\\work\\.home"));
    assert_eq!(get("LOCALAPPDATA").as_deref(), Some("X:\\work\\.home\\AppData\\Local"));
    assert_eq!(get("APPDATA").as_deref(), Some("X:\\work\\.home\\AppData\\Roaming"));
    assert_eq!(get("TEMP").as_deref(), Some("X:\\work\\.home\\AppData\\Local\\Temp"));
    assert_eq!(get("TMP").as_deref(), Some("X:\\work\\.home\\AppData\\Local\\Temp"));
    assert_eq!(get("PORTABLE_RUNNER_ENV_LINK_PATH").as_deref(), Some("X:\\work"));
    assert_eq!(get("PORTABLE_RUNNER_ENV_TARGET_PATH").as_deref(), Some("E:\\test"));
    assert_eq!(get("PORTABLE_DESKTOP_ENV_LINK_PATH").as_deref(), Some("X:\\work"));
    assert_eq!(get("PORTABLE_DESKTOP_ENV_TARGET_PATH").as_deref(), Some("E:\\test"));
    assert_eq!(get("PORTABLE_RUNNER_HOST_HOMEDRIVE").as_deref(), Some("C:"));
    assert_eq!(get("PORTABLE_RUNNER_HOST_HOME").as_deref(), Some(""));
    let pos = |k: &str| env.iter().position(|(n, _)| n == k).unwrap();
    assert!(pos("PORTABLE_RUNNER_HOST_TEMP") < pos("TEMP"));
    assert!(pos("PORTABLE_RUNNER_HOST_USERPROFILE") < pos("USERPROFILE"));
}

#[test]
fn mount_preconditions() {
    match check_mount("E:\\t", "X:\\w", false, true, true) {
        Err(e @ MountError::TargetNotFound(_)) => assert_eq!(e.message(), "[E:\\t] not found"),
        _ => panic!("expected a missing target"),
    }
    match check_mount("E:\\t", "X:\\w", true, true, false) {
        Err(e @ MountError::LinkExists(_)) => assert_eq!(e.message(), "[X:\\w] already exists"),
        _ => panic!("expected an existing link"),
    }
    assert!(matches!(check_mount("E:\\t", "X:\\w", true, true, true), Ok(true)));
    assert!(matches!(check_mount("E:\\t", "X:\\w", true, false, false), Ok(false)));
    assert!(matches!(check_mount("E:\\t", "X:\\w", true, false, true), Ok(false)));
}

#[test]
fn profile_choice() {
    assert_eq!(choose_profile(true, true), ProfileChoice::Cmd);
    assert_eq!(choose_profile(true, false), ProfileChoice::Cmd);
    assert_eq!(choose_profile(false, true), ProfileChoice::Bat);
    assert_eq!(choose_profile(false, false), ProfileChoice::NoProfile);
    assert_eq!(profile_file_name(ProfileChoice::Cmd), Some(".profile.cmd"));
    assert_eq!(profile_file_name(ProfileChoice::Bat), Some(".profile.bat"));
    assert_eq!(profile_file_name(ProfileChoice::NoProfile), None);
}

#[test]
fn marker_and_profile_command() {
    assert_eq!(env_marker("42"), ".env.42.tmp");
    let m = new_env_marker();
    assert_eq!(m.len(), ".env.".len() + 32 + ".tmp".len());
    assert!(m.starts_with(".env.") && m.ends_with(".tmp"));
    assert!(m[5..37].chars().all(|c| c.is_ascii_digit()));
    let args = profile_command_args("X:\\h\\.profile.cmd", ".env.1.tmp");
    assert_eq!(args, vec!["/D", "/C", "X:\\h\\.profile.cmd", "&", "ECHO", ".env.1.tmp", "&", "SET"]);
}
