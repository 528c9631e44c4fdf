//! The shortcuts configuration (`%HOME%/.pr.json`).
use vstd::prelude::*;
use crate::profile_env::pairs_view;
use crate::text::{
    chars_of, find_char, lemma_find_char_after_prefix, lemma_find_char_bounds, split_once, str_eq,
    strings_view,
};

verus! {

/// The configuration file's name under the home directory.
pub const CFG_NAME: &'static str = ".pr.json";

/// What a new configuration file holds.
pub const DEFAULT_CFG: &'static str = r#"{
    "shortcuts": [
        {
            "cmd": "shutdown",
            "run": "shutdown /s /f /t 0",
            "style": "background: linear-gradient(0deg, darkred 0%, white 50%, white 50%, darkred 100%);"
        },
        {
            "cmd": "reboot",
            "run": "shutdown /r /f /t 0",
            "style": "background: linear-gradient(0deg, darkorange 0%, white 50%, white 50%, darkorange 100%);"
        },
        {
            "cmd": "cmd",
            "run": "cmd",
            "withFile": [
                {
                    "pattern": ".*",
                    "folderRequired": true,
                    "parameters": "/s /k cd /d \"{0}\""
                },
                {
                    "pattern": ".*\\.(bat|cmd)$",
                    "fileRequired": true,
                    "argumentsRequired": true,
                    "parameters": "/s /k \"{0}\""
                }
            ],
            "style": "background-color: black; color: white;"
        },
        {
            "cmd": "profile",
            "run": "%HOME%/.profile.cmd",
            "type": "file",
            "style": "background-color: pink;"
        },
        {
            "cmd": "configuration",
            "run": "%HOME%/.pr.json",
            "type": "file",
            "style": "background: linear-gradient(45deg, dodgerblue, whitesmoke);"
        },
        {
            "cmd": "edge",
            "run": "msedge",
            "group": "accessories",
            "style": "background: linear-gradient(45deg, darkcyan, greenyellow);"
        },
        {
            "cmd": "mstsc",
            "run": "mstsc",
            "group": "accessories",
            "style": "background-color: dodgerblue;"
        },
        {
            "cmd": "notepad",
            "run": "notepad",
            "group": "accessories",
            "withFile": [
                {
                    "pattern": ".*\\.(txt|log|out|bat|cmd|json)$",
                    "fileRequired": true,
                    "parameters": "\"{0}\""
                }
            ],
            "style": "background-color: #5bc0de;"
        },
        {
            "cmd": "calculator",
            "run": "calc",
            "group": "accessories",
            "style": "background-color: #6e98bf;"
        },
        {
            "cmd": "paint",
            "run": "mspaint",
            "group": "accessories",
            "style": "background: linear-gradient(217deg, rgba(255,0,0,.8), rgba(255,0,0,0) 70.71%), linear-gradient(127deg, rgba(0,255,0,.8), rgba(0,255,0,0) 70.71%), linear-gradient(336deg, rgba(0,0,255,.8), rgba(0,0,255,0) 70.71%);"
        },
        {
            "cmd": "open",
            "run": "explorer",
            "argumentsRequired": true,
            "group": "open",
            "withFile": [
                {
                    "pattern": ".*\\.(exe)$",
                    "fileRequired": true,
                    "parameters": "\"{0}\""
                }
            ],
            "style": "background-color: navajowhite;"
        },
        {
            "cmd": "open-home",
            "run": "explorer %HOME%",
            "group": "open",
            "style": "background: linear-gradient(45deg, yellowgreen, greenyellow);"
        },
        {
            "cmd": "open-link",
            "run": "explorer %PORTABLE_RUNNER_ENV_LINK_PATH%",
            "group": "open",
            "style": "background: linear-gradient(45deg, forestgreen, whitesmoke);"
        },
        {
            "cmd": "open-target",
            "run": "explorer %PORTABLE_RUNNER_ENV_TARGET_PATH%",
            "group": "open",
            "style": "background: linear-gradient(45deg, dodgerblue, bisque);"
        }
    ]
}"#;

/// The whole configuration: the shortcuts, in the order they are shown.
#[derive(Debug)]
pub struct Config {
    pub shortcuts: Vec<Shortcut>,
}

/// A command that the runner offers, and how it is run.
#[derive(Debug)]
pub struct Shortcut {
    /// What the user enters to run it.
    pub cmd: String,
    /// The command line it runs.
    pub run: String,
    /// The kind of target (`file` for a file to open); written `type` in the file.
    pub shortcut_type: Option<String>,
    pub label: Option<String>,
    pub group: Option<String>,
    pub style: Option<String>,
    pub arguments_required: Option<bool>,
    /// How files dropped on the shortcut are passed to it.
    pub with_file: Option<Vec<WithFileDrop>>,
}

/// How a file dropped on a shortcut is passed to its command.
#[derive(Debug)]
pub struct WithFileDrop {
    /// The pattern that the dropped file's path must match.
    pub pattern: String,
    /// The parameters, with `{0}` standing for the dropped path.
    pub parameters: String,
    pub file_required: Option<bool>,
    pub folder_required: Option<bool>,
    pub arguments_required: Option<bool>,
}

/// Adds a shortcut at the end of the configuration; the shortcuts already there stay as
/// they were, in their order.
pub fn add_shortcut(config: &mut Config, shortcut: Shortcut)
    ensures
        final(config).shortcuts@ == old(config).shortcuts@.push(shortcut),
{
    config.shortcuts.push(shortcut);
}

/// The shortcuts file of the desktop window (`%HOME%\.pd.json`): each shortcut's name and
/// the command line it stands for, as `"shortcuts": { "<name>": "<command>", ... }`.
#[derive(Debug)]
pub struct PdShortcuts {
    pub entries: Vec<(String, String)>,
}

/// The command of the first shortcut named `name`.
pub open spec fn lookup_command(entries: Seq<(Seq<char>, Seq<char>)>, name: Seq<char>) -> Option<
    Seq<char>,
>
    decreases entries.len(),
{
    if entries.len() == 0 {
        None
    } else if entries[0].0 == name {
        Some(entries[0].1)
    } else {
        lookup_command(entries.drop_first(), name)
    }
}

/// What entering `input` runs, as a program and its arguments: the input's first word
/// (up to the first space) names a shortcut, its command takes that word's place, and the
/// rest of the input follows as the arguments. `None` when no shortcut has that name.
pub open spec fn spec_expand_shortcut(
    entries: Seq<(Seq<char>, Seq<char>)>,
    input: Seq<char>,
) -> Option<Seq<Seq<char>>> {
    match split_once(input, ' ') {
        Some((name, args)) => match lookup_command(entries, name) {
            Some(run) => Some(seq![run, args]),
            None => None,
        },
        None => match lookup_command(entries, input) {
            Some(run) => Some(seq![run]),
            None => None,
        },
    }
}

fn find_command<'a>(shortcuts: &'a PdShortcuts, name: &str) -> (r: Option<&'a String>)
    ensures
        match r {
            Some(run) => lookup_command(pairs_view(shortcuts.entries@), name@) == Some(run@),
            None => lookup_command(pairs_view(shortcuts.entries@), name@) is None,
        },
{
    let ghost all = pairs_view(shortcuts.entries@);
    assert(all.skip(0) =~= all);
    let mut i: usize = 0;
    while i < shortcuts.entries.len()
        invariant
            i <= shortcuts.entries@.len(),
            all == pairs_view(shortcuts.entries@),
            lookup_command(all, name@) == lookup_command(all.skip(i as int), name@),
        decreases shortcuts.entries@.len() - i,
    {
        let entry = &shortcuts.entries[i];
        assert(all.skip(i as int)[0] == (entry.0@, entry.1@));
        assert(all.skip(i as int).drop_first() =~= all.skip(i + 1));
        if str_eq(entry.0.as_str(), name) {
            return Some(&entry.1);
        }
        i = i + 1;
    }
    assert(all.skip(i as int) =~= Seq::<(Seq<char>, Seq<char>)>::empty());
    None
}

/// The program and arguments that entering `input` runs through the shortcuts, when its
/// first word names one.
pub fn expand_shortcut(shortcuts: &PdShortcuts, input: &str) -> (r: Option<Vec<String>>)
    ensures
        match r {
            Some(v) => spec_expand_shortcut(pairs_view(shortcuts.entries@), input@) == Some(
                strings_view(v@),
            ),
            None => spec_expand_shortcut(pairs_view(shortcuts.entries@), input@) is None,
        },
{
    let v = chars_of(input);
    let mut k: usize = 0;
    while k < v.len() && v[k] != ' '
        invariant
            k <= v@.len(),
            v@ == input@,
            find_char(v@, 0, ' ') == find_char(v@, k as int, ' '),
        decreases v@.len() - k,
    {
        k = k + 1;
    }
    proof {
        lemma_find_char_bounds(v@, 0, ' ');
    }
    if k < v.len() {
        let name = input.substring_char(0, k);
        let args = input.substring_char(k + 1, v.len());
        match find_command(shortcuts, name) {
            Some(run) => {
                let mut out: Vec<String> = Vec::new();
                out.push(run.clone());
                out.push(args.to_owned());
                assert(strings_view(out@) =~= seq![run@, args@]);
                Some(out)
            },
            None => None,
        }
    } else {
        match find_command(shortcuts, input) {
            Some(run) => {
                let mut out: Vec<String> = Vec::new();
                out.push(run.clone());
                assert(strings_view(out@) =~= seq![run@]);
                Some(out)
            },
            None => None,
        }
    }
}

/// The first shortcut named `name` is the one that `lookup_command` finds.
proof fn lemma_lookup_first(entries: Seq<(Seq<char>, Seq<char>)>, i: int)
    requires
        0 <= i < entries.len(),
        forall|j: int| 0 <= j < i ==> entries[j].0 != entries[i].0,
    ensures
        lookup_command(entries, entries[i].0) == Some(entries[i].1),
    decreases i,
{
    if i > 0 {
        let rest = entries.drop_first();
        assert forall|j: int| 0 <= j < i - 1 implies #[trigger] rest[j].0 != rest[i - 1].0 by {
            assert(rest[j] == entries[j + 1]);
        }
        lemma_lookup_first(rest, i - 1);
    }
}

/// No shortcut named `name`: `lookup_command` finds none.
proof fn lemma_lookup_absent(entries: Seq<(Seq<char>, Seq<char>)>, name: Seq<char>)
    requires
        forall|j: int| 0 <= j < entries.len() ==> entries[j].0 != name,
    ensures
        lookup_command(entries, name) is None,
    decreases entries.len(),
{
    if entries.len() > 0 {
        let rest = entries.drop_first();
        assert forall|j: int| 0 <= j < rest.len() implies rest[j].0 != name by {
            assert(rest[j] == entries[j + 1]);
        }
        lemma_lookup_absent(rest, name);
    }
}

/// Splitting `name + " " + rest` at its first space, when `name` holds none, gives `name`
/// and all of `rest`.
proof fn lemma_split_after_name(name: Seq<char>, rest: Seq<char>)
    requires
        !name.contains(' '),
    ensures
        split_once(name + " "@ + rest, ' ') == Some((name, rest)),
{
    reveal_strlit(" ");
    let tail = " "@ + rest;
    let s = name + tail;
    assert(s =~= name + " "@ + rest);
    lemma_find_char_after_prefix(name, tail, ' ');
    assert(s.take(name.len() as int) =~= name);
    assert(s.skip(name.len() + 1int) =~= rest);
}

/// A name alone, holding no space, is not split.
proof fn lemma_no_split(name: Seq<char>)
    requires
        !name.contains(' '),
    ensures
        split_once(name, ' ') is None,
{
    lemma_find_char_bounds(name, 0, ' ');
    let k = find_char(name, 0, ' ');
    if k < name.len() {
        assert(name.contains(name[k]));
    }
}

/// Entering a shortcut's name, a space and anything after it runs the shortcut's command
/// with all of the rest of the input as its argument (so `open-url github.com bing.com`
/// runs `msedge` with `github.com bing.com`); the name alone runs the command with no
/// argument. Where two shortcuts share a name, the first counts.
pub proof fn lemma_expand_shortcut_replaces_name(
    entries: Seq<(Seq<char>, Seq<char>)>,
    i: int,
    rest: Seq<char>,
)
    requires
        0 <= i < entries.len(),
        forall|j: int| 0 <= j < i ==> entries[j].0 != entries[i].0,
        !entries[i].0.contains(' '),
    ensures
        spec_expand_shortcut(entries, entries[i].0 + " "@ + rest) == Some(
            seq![entries[i].1, rest],
        ),
        spec_expand_shortcut(entries, entries[i].0) == Some(seq![entries[i].1]),
{
    lemma_lookup_first(entries, i);
    lemma_split_after_name(entries[i].0, rest);
    lemma_no_split(entries[i].0);
}

/// A first word that names no shortcut expands to nothing, whatever follows it.
pub proof fn lemma_expand_unknown_shortcut(
    entries: Seq<(Seq<char>, Seq<char>)>,
    name: Seq<char>,
    rest: Seq<char>,
)
    requires
        forall|j: int| 0 <= j < entries.len() ==> entries[j].0 != name,
        !name.contains(' '),
    ensures
        spec_expand_shortcut(entries, name + " "@ + rest) is None,
        spec_expand_shortcut(entries, name) is None,
{
    lemma_lookup_absent(entries, name);
    lemma_split_after_name(name, rest);
    lemma_no_split(name);
}

} // verus!
