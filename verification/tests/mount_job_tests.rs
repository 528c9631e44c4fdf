use portable_runner::mount::{runner_profile, HostEnv, MountError};
use portable_runner::mount_job::{MountAction, MountEvent, MountJob, MountPhase};

fn host() -> HostEnv {
    HostEnv {
        tmp: "T".to_string(),
        temp: "T".to_string(),
        home: "".to_string(),
        appdata: "A".to_string(),
        homepath: "P".to_string(),
        homedrive: "C:".to_string(),
        userprofile: "U".to_string(),
        localappdata: "L".to_string(),
    }
}

#[test]
fn runner_profile_choice() {
    assert_eq!(runner_profile(true, true), (".profile.cmd", false));
    assert_eq!(runner_profile(false, true), (".profile.bat", false));
    assert_eq!(runner_profile(false, false), (".profile.cmd", true));
}

#[test]
fn mount_job_full_run() {
    let mut job = MountJob::new("E:\\test", "X:\\work", ".home", true, false);
    let a = job.step(MountEvent::PathsChecked { target_exists: true, link_exists: true });
    assert!(matches!(a.as_slice(), [MountAction::RemoveLink]));
    assert_eq!(job.phase, MountPhase::RemoveLink);
    let a = job.step(MountEvent::LinkRemoved);
    assert!(matches!(a.as_slice(), [MountAction::CreateLink]));
    let a = job.step(MountEvent::LinkCreated(host()));
    assert_eq!(a.len(), 2);
    match &a[0] {
        MountAction::SetVars(v) => {
            assert_eq!(v.len(), 20);
            assert!(v.contains(&("HOME".to_string(), "X:\\work\\.home".to_string())));
            assert!(v.contains(&("PORTABLE_DESKTOP_ENV_LINK_PATH".to_string(), "X:\\work".to_string())));
        }
        _ => panic!("expected the mount's variables"),
    }
    match &a[1] {
        MountAction::CheckProfiles(c, b) => {
            assert_eq!(c, "X:\\work\\.home\\.profile.cmd");
            assert_eq!(b, "X:\\work\\.home\\.profile.bat");
        }
        _ => panic!("expected a profile check"),
    }
    let a = job.step(MountEvent::ProfilesChecked { cmd_exists: false, bat_exists: true });
    let marker = job.marker.clone();
    assert!(marker.starts_with(".env.") && marker.ends_with(".tmp") && marker.len() == 41);
    match a.as_slice() {
        [MountAction::RunProfile(args)] => {
            assert_eq!(args[2], "X:\\work\\.home\\.profile.bat");
            assert_eq!(args[5], marker);
        }
        _ => panic!("expected a profile run"),
    }
    let out = format!("noise\r\n{}\r\nFOO=bar\r\n", marker);
    let a = job.step(MountEvent::ProfileOutput(out));
    match a.as_slice() {
        [MountAction::SetVars(v), MountAction::Finish] => {
            assert_eq!(v, &vec![("FOO".to_string(), "bar".to_string())]);
        }
        _ => panic!("expected the profile's variables, then the end"),
    }
    assert_eq!(job.phase, MountPhase::Done);
    assert!(job.step(MountEvent::LinkRemoved).is_empty());
}

#[test]
fn mount_job_refusals_and_failures() {
    let mut job = MountJob::new("E:\\t", "X:\\w", ".home", false, false);
    match job.step(MountEvent::PathsChecked { target_exists: true, link_exists: true }).as_slice() {
        [MountAction::Refuse(MountError::LinkExists(p))] => assert_eq!(p, "X:\\w"),
        _ => panic!("expected a refusal"),
    }
    assert_eq!(job.phase, MountPhase::Failed);

    let mut job = MountJob::new("E:\\t", "X:\\w", ".home", false, false);
    match job.step(MountEvent::PathsChecked { target_exists: false, link_exists: false }).as_slice() {
        [MountAction::Refuse(MountError::TargetNotFound(p))] => assert_eq!(p, "E:\\t"),
        _ => panic!("expected a refusal"),
    }

    let mut job = MountJob::new("E:\\t", "X:\\w", ".home", true, false);
    job.step(MountEvent::PathsChecked { target_exists: true, link_exists: true });
    assert!(matches!(job.step(MountEvent::RemoveFailed).as_slice(), [MountAction::FailWithIoError]));
    assert_eq!(job.phase, MountPhase::Failed);

    let mut job = MountJob::new("E:\\t", "X:\\w", ".home", false, false);
    job.step(MountEvent::PathsChecked { target_exists: true, link_exists: false });
    assert!(job.step(MountEvent::LinkRemoved).is_empty());
    assert!(matches!(job.step(MountEvent::LinkFailed).as_slice(), [MountAction::FailWithIoError]));
}

#[test]
fn mount_job_profiles() {
    let mut job = MountJob::new("E:\\t", "X:\\w", "h", false, false);
    job.step(MountEvent::PathsChecked { target_exists: true, link_exists: false });
    job.step(MountEvent::LinkCreated(host()));
    assert!(matches!(
        job.step(MountEvent::ProfilesChecked { cmd_exists: false, bat_exists: false }).as_slice(),
        [MountAction::Finish]
    ));

    let mut job = MountJob::new("E:\\t", "X:\\w", "h", false, true);
    job.step(MountEvent::PathsChecked { target_exists: true, link_exists: false });
    job.step(MountEvent::LinkCreated(host()));
    match job.step(MountEvent::ProfilesChecked { cmd_exists: false, bat_exists: false }).as_slice() {
        [MountAction::CreateProfile(p)] => assert_eq!(p, "X:\\w\\h\\.profile.cmd"),
        _ => panic!("expected a new profile"),
    }
    match job.step(MountEvent::ProfileCreated).as_slice() {
        [MountAction::RunProfile(args)] => assert_eq!(args[2], "X:\\w\\h\\.profile.cmd"),
        _ => panic!("expected a profile run"),
    }
}
