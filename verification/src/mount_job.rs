//! A mount, step by step: which outside work comes next (removing the link path, creating
//! the link, testing for profile scripts, running one), and what the mount does with each
//! result. Nothing is set in the environment once a removal or the link has failed, and the
//! profile's variables are set only after the mount's own.
use vstd::prelude::*;
use crate::mount::{
    check_mount, choose_profile, mount_env, new_env_marker, profile_command_args,
    spec_home, spec_mount_env, spec_profile_args, sub_path, sub_path_exec, HostEnv, MountError,
    ProfileChoice,
};
use crate::profile_env::{env_entries, lines_of, pairs_view, parse_profile_env};
use crate::commands::is_digits;
use crate::text::strings_view;
use crate::winpath::spec_prefix;

verus! {

/// Where a mount stands.
#[derive(Clone, Copy, Debug, PartialEq, Eq, Structural)]
pub enum MountPhase {
    /// Waiting to learn whether the target and the link path exist.
    CheckPaths,
    /// Waiting for the existing link path to be removed.
    RemoveLink,
    /// Waiting for the link to be created.
    CreateLink,
    /// Waiting to learn which profile scripts exist.
    CheckProfiles,
    /// Waiting for a new profile script to be written.
    CreateProfile,
    /// Waiting for the output of the profile run.
    RunProfile,
    /// The mount succeeded.
    Done,
    /// The mount failed.
    Failed,
}

/// The result of the outside work that a mount asked for.
#[derive(Debug)]
pub enum MountEvent {
    PathsChecked { target_exists: bool, link_exists: bool },
    LinkRemoved,
    RemoveFailed,
    /// The link exists now; the host's variables as they were read right after.
    LinkCreated(HostEnv),
    LinkFailed,
    ProfilesChecked { cmd_exists: bool, bat_exists: bool },
    ProfileCreated,
    /// What the shell printed while running the profile.
    ProfileOutput(String),
}

/// The outside work a mount asks for next, or how it ends.
#[derive(Debug)]
pub enum MountAction {
    /// End the mount with this error; nothing was changed.
    Refuse(MountError),
    /// Remove the existing link path.
    RemoveLink,
    /// Create the link from the link path to the target.
    CreateLink,
    /// End the mount with the error that the last removal or link reported.
    FailWithIoError,
    /// Set these variables, in order.
    SetVars(Vec<(String, String)>),
    /// Find out which of these two profile scripts exist (`.cmd` first, `.bat` second).
    CheckProfiles(String, String),
    /// Write `DEFAULT_PROFILE` to this path.
    CreateProfile(String),
    /// Run the command interpreter with these arguments and report what it prints.
    RunProfile(Vec<String>),
    /// End the mount successfully.
    Finish,
}

/// A mount of `tpath` at `lpath`, with its home at `lpath\hpath`.
#[derive(Debug)]
pub struct MountJob {
    pub tpath: String,
    pub lpath: String,
    pub hpath: String,
    /// Replace an existing link path.
    pub force: bool,
    /// Create `.profile.cmd` when the home has no profile script.
    pub create_profile: bool,
    pub phase: MountPhase,
    /// The line that ends the profile's own output.
    pub marker: String,
    /// The profile script being run.
    pub profile: String,
}

pub open spec fn same_request(a: MountJob, b: MountJob) -> bool {
    &&& a.tpath == b.tpath
    &&& a.lpath == b.lpath
    &&& a.hpath == b.hpath
    &&& a.force == b.force
    &&& a.create_profile == b.create_profile
}

pub open spec fn profile_path(job: MountJob, name: Seq<char>) -> Seq<char> {
    sub_path(spec_home(job.lpath@, job.hpath@), name)
}

/// A fresh marker line: `.env.<32 digits>.tmp`.
pub open spec fn is_fresh_marker(m: Seq<char>) -> bool {
    exists|token: Seq<char>| is_digits(token, 32) && m == ".env."@ + token + ".tmp"@
}

/// Running the profile at `job.profile` with `job.marker`, which is fresh.
pub open spec fn runs_profile(job: MountJob, actions: Seq<MountAction>) -> bool {
    &&& job.phase == MountPhase::RunProfile
    &&& is_fresh_marker(job.marker@)
    &&& actions.len() == 1
    &&& actions[0] matches MountAction::RunProfile(args) && strings_view(args@)
        == spec_profile_args(job.profile@, job.marker@)
}

impl MountJob {
    /// A mount that has not started yet.
    pub fn new(tpath: &str, lpath: &str, hpath: &str, force: bool, create_profile: bool) -> (r:
        MountJob)
        ensures
            r.tpath@ == tpath@,
            r.lpath@ == lpath@,
            r.hpath@ == hpath@,
            r.force == force,
            r.create_profile == create_profile,
            r.phase == MountPhase::CheckPaths,
    {
        MountJob {
            tpath: tpath.to_owned(),
            lpath: lpath.to_owned(),
            hpath: hpath.to_owned(),
            force,
            create_profile,
            phase: MountPhase::CheckPaths,
            marker: String::new(),
            profile: String::new(),
        }
    }

    fn start_profile(&mut self, name: &str) -> (r: Vec<MountAction>)
        ensures
            same_request(*old(self), *final(self)),
            final(self).profile@ == profile_path(*old(self), name@),
            runs_profile(*final(self), r@),
    {
        let home = sub_path_exec(self.lpath.as_str(), self.hpath.as_str());
        self.profile = sub_path_exec(home.as_str(), name);
        self.marker = new_env_marker();
        self.phase = MountPhase::RunProfile;
        let mut r: Vec<MountAction> = Vec::new();
        r.push(MountAction::RunProfile(profile_command_args(self.profile.as_str(), self.marker.as_str())));
        r
    }

    /// What the mount does with the result `ev` of the work it asked for last: where it
    /// stands next, and what it asks for or how it ends. An event that does not answer
    /// the work asked for changes nothing.
    pub fn step(&mut self, ev: MountEvent) -> (r: Vec<MountAction>)
        requires
            old(self).phase == MountPhase::CreateLink && ev is LinkCreated ==> spec_prefix(
                old(self).lpath@,
            ) is Some,
        ensures
            same_request(*old(self), *final(self)),
            match (old(self).phase, ev) {
                (MountPhase::CheckPaths, MountEvent::PathsChecked { target_exists, link_exists }) => {
                    if !target_exists {
                        &&& final(self).phase == MountPhase::Failed
                        &&& r@.len() == 1
                        &&& r@[0] matches MountAction::Refuse(MountError::TargetNotFound(p))
                        &&& p@ == old(self).tpath@
                    } else if link_exists && !old(self).force {
                        &&& final(self).phase == MountPhase::Failed
                        &&& r@.len() == 1
                        &&& r@[0] matches MountAction::Refuse(MountError::LinkExists(p))
                        &&& p@ == old(self).lpath@
                    } else if link_exists {
                        &&& final(self).phase == MountPhase::RemoveLink
                        &&& r@.len() == 1
                        &&& r@[0] is RemoveLink
                    } else {
                        &&& final(self).phase == MountPhase::CreateLink
                        &&& r@.len() == 1
                        &&& r@[0] is CreateLink
                    }
                },
                (MountPhase::RemoveLink, MountEvent::LinkRemoved) => {
                    &&& final(self).phase == MountPhase::CreateLink
                    &&& r@.len() == 1
                    &&& r@[0] is CreateLink
                },
                (MountPhase::RemoveLink, MountEvent::RemoveFailed) | (
                    MountPhase::CreateLink,
                    MountEvent::LinkFailed,
                ) => {
                    &&& final(self).phase == MountPhase::Failed
                    &&& r@.len() == 1
                    &&& r@[0] is FailWithIoError
                },
                (MountPhase::CreateLink, MountEvent::LinkCreated(host)) => {
                    &&& final(self).phase == MountPhase::CheckProfiles
                    &&& r@.len() == 2
                    &&& r@[0] matches MountAction::SetVars(vars) && pairs_view(vars@)
                        == spec_mount_env(old(self).tpath@, old(self).lpath@, old(self).hpath@, host)
                    &&& r@[1] matches MountAction::CheckProfiles(cmd, bat) && cmd@ == profile_path(
                        *old(self),
                        ".profile.cmd"@,
                    ) && bat@ == profile_path(*old(self), ".profile.bat"@)
                },
                (MountPhase::CheckProfiles, MountEvent::ProfilesChecked { cmd_exists, bat_exists }) => {
                    if cmd_exists {
                        final(self).profile@ == profile_path(*old(self), ".profile.cmd"@)
                            && runs_profile(*final(self), r@)
                    } else if bat_exists {
                        final(self).profile@ == profile_path(*old(self), ".profile.bat"@)
                            && runs_profile(*final(self), r@)
                    } else if old(self).create_profile {
                        &&& final(self).phase == MountPhase::CreateProfile
                        &&& r@.len() == 1
                        &&& r@[0] matches MountAction::CreateProfile(p) && p@ == profile_path(
                            *old(self),
                            ".profile.cmd"@,
                        )
                    } else {
                        &&& final(self).phase == MountPhase::Done
                        &&& r@.len() == 1
                        &&& r@[0] is Finish
                    }
                },
                (MountPhase::CreateProfile, MountEvent::ProfileCreated) => {
                    final(self).profile@ == profile_path(*old(self), ".profile.cmd"@) && runs_profile(
                        *final(self),
                        r@,
                    )
                },
                (MountPhase::RunProfile, MountEvent::ProfileOutput(text)) => {
                    &&& final(self).phase == MountPhase::Done
                    &&& r@.len() == 2
                    &&& r@[0] matches MountAction::SetVars(vars) && pairs_view(vars@)
                        == env_entries(lines_of(text@), old(self).marker@, false)
                    &&& r@[1] is Finish
                },
                _ => *final(self) == *old(self) && r@.len() == 0,
            },
    {
        let mut r: Vec<MountAction> = Vec::new();
        match self.phase {
            MountPhase::CheckPaths => {
                if let MountEvent::PathsChecked { target_exists, link_exists } = ev {
                    match check_mount(
                        self.tpath.as_str(),
                        self.lpath.as_str(),
                        target_exists,
                        link_exists,
                        self.force,
                    ) {
                        Err(e) => {
                            self.phase = MountPhase::Failed;
                            r.push(MountAction::Refuse(e));
                        },
                        Ok(true) => {
                            self.phase = MountPhase::RemoveLink;
                            r.push(MountAction::RemoveLink);
                        },
                        Ok(false) => {
                            self.phase = MountPhase::CreateLink;
                            r.push(MountAction::CreateLink);
                        },
                    }
                }
            },
            MountPhase::RemoveLink => {
                match ev {
                    MountEvent::LinkRemoved => {
                        self.phase = MountPhase::CreateLink;
                        r.push(MountAction::CreateLink);
                    },
                    MountEvent::RemoveFailed => {
                        self.phase = MountPhase::Failed;
                        r.push(MountAction::FailWithIoError);
                    },
                    _ => {},
                }
            },
            MountPhase::CreateLink => {
                match ev {
                    MountEvent::LinkCreated(host) => {
                        let vars = mount_env(
                            self.tpath.as_str(),
                            self.lpath.as_str(),
                            self.hpath.as_str(),
                            &host,
                        );
                        let home = sub_path_exec(self.lpath.as_str(), self.hpath.as_str());
                        let cmd = sub_path_exec(home.as_str(), ".profile.cmd");
                        let bat = sub_path_exec(home.as_str(), ".profile.bat");
                        self.phase = MountPhase::CheckProfiles;
                        r.push(MountAction::SetVars(vars));
                        r.push(MountAction::CheckProfiles(cmd, bat));
                    },
                    MountEvent::LinkFailed => {
                        self.phase = MountPhase::Failed;
                        r.push(MountAction::FailWithIoError);
                    },
                    _ => {},
                }
            },
            MountPhase::CheckProfiles => {
                if let MountEvent::ProfilesChecked { cmd_exists, bat_exists } = ev {
                    match choose_profile(cmd_exists, bat_exists) {
                        ProfileChoice::Cmd => {
                            return self.start_profile(".profile.cmd");
                        },
                        ProfileChoice::Bat => {
                            return self.start_profile(".profile.bat");
                        },
                        ProfileChoice::NoProfile => {
                            if self.create_profile {
                                let home = sub_path_exec(self.lpath.as_str(), self.hpath.as_str());
                                let cmd = sub_path_exec(home.as_str(), ".profile.cmd");
                                self.phase = MountPhase::CreateProfile;
                                r.push(MountAction::CreateProfile(cmd));
                            } else {
                                self.phase = MountPhase::Done;
                                r.push(MountAction::Finish);
                            }
                        },
                    }
                }
            },
            MountPhase::CreateProfile => {
                if let MountEvent::ProfileCreated = ev {
                    return self.start_profile(".profile.cmd");
                }
            },
            MountPhase::RunProfile => {
                if let MountEvent::ProfileOutput(text) = ev {
                    let vars = parse_profile_env(text.as_str(), self.marker.as_str());
                    self.phase = MountPhase::Done;
                    r.push(MountAction::SetVars(vars));
                    r.push(MountAction::Finish);
                }
            },
            MountPhase::Done | MountPhase::Failed => {},
        }
        r
    }
}

} // verus!
