//! What the runner reads from a Windows shell link (`.lnk`) file.
use vstd::prelude::*;

verus! {

/// The link information block of a shell link, as far as it is read here.
#[derive(Debug)]
pub struct LinkInfoFields {
    /// The local path of the link's target, when the block records one.
    pub local_base_path: Option<String>,
}

/// The parts of a parsed shell link that the runner reads.
#[derive(Debug)]
pub struct ShellLinkFields {
    /// The link's description string, when present.
    pub name: Option<String>,
    /// The link information block, when present.
    pub link_info: Option<LinkInfoFields>,
    /// The command line arguments, when present.
    pub arguments: Option<String>,
}

/// What a shortcut file offers: its name, its target and its arguments.
#[derive(Debug)]
pub struct LnkInfo {
    pub name: Option<String>,
    pub target: Option<String>,
    pub arguments: Option<String>,
}

/// A link is read only when it has a link information block: then its name, its target's
/// local path and its arguments; without the block, nothing at all.
pub fn read_lnk(link: &ShellLinkFields) -> (r: LnkInfo)
    ensures
        match link.link_info {
            Some(info) => r.name == link.name && r.target == info.local_base_path && r.arguments
                == link.arguments,
            None => r.name is None && r.target is None && r.arguments is None,
        },
{
    match &link.link_info {
        Some(info) => LnkInfo {
            name: clone_opt(&link.name),
            target: clone_opt(&info.local_base_path),
            arguments: clone_opt(&link.arguments),
        },
        None => LnkInfo { name: None, target: None, arguments: None },
    }
}

fn clone_opt(s: &Option<String>) -> (r: Option<String>)
    ensures
        r == *s,
{
    match s {
        Some(v) => Some(v.clone()),
        None => None,
    }
}

} // verus!
