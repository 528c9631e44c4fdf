//! Windows path prefixes (`C:`, `\\server\share`, `\\?\...`, `\\.\...`) and roots,
//! read the way Windows path parsing reads them.
use vstd::prelude::*;
use crate::text::chars_of;

verus! {

/// The kinds of prefix that a Windows path can begin with.
#[derive(Clone, Copy, Debug, PartialEq, Eq, Structural)]
pub enum PrefixKind {
    /// `\\?\prefix`
    Verbatim,
    /// `\\?\UNC\server\share`
    VerbatimUNC,
    /// `\\?\C:`
    VerbatimDisk,
    /// `\\.\device`
    DeviceNS,
    /// `\\server\share`
    UNC,
    /// `C:`
    Disk,
}

/// `/` and `\` both separate components of a Windows path.
pub open spec fn is_sep(c: char) -> bool {
    c == '\\' || c == '/'
}

/// A separator inside a component: only `\` counts in a verbatim prefix.
pub open spec fn is_component_sep(c: char, verbatim: bool) -> bool {
    if verbatim {
        c == '\\'
    } else {
        is_sep(c)
    }
}

pub open spec fn is_ascii_alpha(c: char) -> bool {
    ('a' <= c && c <= 'z') || ('A' <= c && c <= 'Z')
}

/// Index of the first component separator at or after `start`, or the length of `s`.
pub open spec fn component_end(s: Seq<char>, start: int, verbatim: bool) -> int
    decreases s.len() - start,
{
    if start >= s.len() {
        s.len() as int
    } else if start >= 0 && is_component_sep(s[start], verbatim) {
        start
    } else {
        component_end(s, start + 1, verbatim)
    }
}

/// Where the next component starts after a component that ends at `end`.
pub open spec fn after_separator(s: Seq<char>, end: int) -> int {
    if end < s.len() {
        end + 1
    } else {
        s.len() as int
    }
}

/// `s[i]` is a drive letter followed by `:`.
pub open spec fn is_drive_at(s: Seq<char>, i: int) -> bool {
    i + 2 <= s.len() && is_ascii_alpha(s[i]) && s[i + 1] == ':'
}

/// The prefix of a Windows path: its kind and its length in characters.
pub open spec fn spec_prefix(s: Seq<char>) -> Option<(PrefixKind, int)> {
    if s.len() >= 2 && is_sep(s[0]) && is_sep(s[1]) {
        if s.len() >= 4 && s[0] == '\\' && s[1] == '\\' && s[2] == '?' && s[3] == '\\' {
            if s.len() >= 8 && s[4] == 'U' && s[5] == 'N' && s[6] == 'C' && is_sep(s[7]) {
                let server_end = component_end(s, 8, true);
                let share_start = after_separator(s, server_end);
                let share_end = component_end(s, share_start, true);
                if share_end > share_start {
                    Some((PrefixKind::VerbatimUNC, share_end))
                } else {
                    Some((PrefixKind::VerbatimUNC, server_end))
                }
            } else if is_drive_at(s, 4) && (s.len() == 6 || is_sep(s[6])) {
                Some((PrefixKind::VerbatimDisk, 6))
            } else {
                Some((PrefixKind::Verbatim, component_end(s, 4, true)))
            }
        } else if s.len() >= 4 && s[2] == '.' && is_sep(s[3]) {
            Some((PrefixKind::DeviceNS, component_end(s, 4, false)))
        } else {
            let server_end = component_end(s, 2, false);
            let share_start = after_separator(s, server_end);
            let share_end = component_end(s, share_start, false);
            if server_end > 2 && share_end > share_start {
                Some((PrefixKind::UNC, share_end))
            } else {
                None
            }
        }
    } else if is_drive_at(s, 0) {
        Some((PrefixKind::Disk, 2))
    } else {
        None
    }
}

/// The path has a root: a separator right after its prefix, or a prefix other than a drive.
pub open spec fn spec_has_root(s: Seq<char>) -> bool {
    match spec_prefix(s) {
        Some((kind, len)) => kind != PrefixKind::Disk || (len < s.len() && is_sep(s[len])),
        None => s.len() > 0 && is_sep(s[0]),
    }
}

proof fn lemma_component_end_bounds(s: Seq<char>, start: int, verbatim: bool)
    requires
        0 <= start,
    ensures
        start <= s.len() ==> start <= component_end(s, start, verbatim) <= s.len(),
        start > s.len() ==> component_end(s, start, verbatim) == s.len(),
        component_end(s, start, verbatim) < s.len() ==> is_component_sep(
            s[component_end(s, start, verbatim)],
            verbatim,
        ),
    decreases s.len() - start,
{
    if start < s.len() && !is_component_sep(s[start], verbatim) {
        lemma_component_end_bounds(s, start + 1, verbatim);
    }
}

fn is_sep_exec(c: char) -> (r: bool)
    ensures
        r == is_sep(c),
{
    c == '\\' || c == '/'
}

fn is_ascii_alpha_exec(c: char) -> (r: bool)
    ensures
        r == is_ascii_alpha(c),
{
    ('a' <= c && c <= 'z') || ('A' <= c && c <= 'Z')
}

fn component_end_exec(s: &Vec<char>, start: usize, verbatim: bool) -> (e: usize)
    requires
        start <= s@.len(),
    ensures
        e == component_end(s@, start as int, verbatim),
{
    let mut i = start;
    while i < s.len()
        invariant
            start <= i <= s@.len(),
            component_end(s@, start as int, verbatim) == component_end(s@, i as int, verbatim),
        decreases s@.len() - i,
    {
        let c = s[i];
        let stop = if verbatim {
            c == '\\'
        } else {
            is_sep_exec(c)
        };
        if stop {
            return i;
        }
        i = i + 1;
    }
    i
}

fn after_separator_exec(s: &Vec<char>, end: usize) -> (r: usize)
    requires
        end <= s@.len(),
    ensures
        r == after_separator(s@, end as int),
{
    if end < s.len() {
        end + 1
    } else {
        s.len()
    }
}

fn is_drive_at_exec(s: &Vec<char>, i: usize) -> (r: bool)
    requires
        i <= 8,
    ensures
        r == is_drive_at(s@, i as int),
{
    i + 2 <= s.len() && is_ascii_alpha_exec(s[i]) && s[i + 1] == ':'
}

/// The prefix of the path whose characters are `s`, with its kind and length.
pub fn prefix_of_chars(s: &Vec<char>) -> (r: Option<(PrefixKind, usize)>)
    ensures
        match r {
            Some((kind, len)) => spec_prefix(s@) == Some((kind, len as int)),
            None => spec_prefix(s@) is None,
        },
        r matches Some((_, len)) ==> 2 <= len <= s@.len(),
{
    let n = s.len();
    if n >= 2 && is_sep_exec(s[0]) && is_sep_exec(s[1]) {
        if n >= 4 && s[0] == '\\' && s[1] == '\\' && s[2] == '?' && s[3] == '\\' {
            if n >= 8 && s[4] == 'U' && s[5] == 'N' && s[6] == 'C' && is_sep_exec(s[7]) {
                let server_end = component_end_exec(s, 8, true);
                proof { lemma_component_end_bounds(s@, 8, true); }
                let share_start = after_separator_exec(s, server_end);
                let share_end = component_end_exec(s, share_start, true);
                proof { lemma_component_end_bounds(s@, share_start as int, true); }
                if share_end > share_start {
                    Some((PrefixKind::VerbatimUNC, share_end))
                } else {
                    Some((PrefixKind::VerbatimUNC, server_end))
                }
            } else if is_drive_at_exec(s, 4) && (n == 6 || is_sep_exec(s[6])) {
                Some((PrefixKind::VerbatimDisk, 6))
            } else {
                let e = component_end_exec(s, 4, true);
                proof { lemma_component_end_bounds(s@, 4, true); }
                Some((PrefixKind::Verbatim, e))
            }
        } else if n >= 4 && s[2] == '.' && is_sep_exec(s[3]) {
            let e = component_end_exec(s, 4, false);
            proof { lemma_component_end_bounds(s@, 4, false); }
            Some((PrefixKind::DeviceNS, e))
        } else {
            let server_end = component_end_exec(s, 2, false);
            proof { lemma_component_end_bounds(s@, 2, false); }
            let share_start = after_separator_exec(s, server_end);
            let share_end = component_end_exec(s, share_start, false);
            proof { lemma_component_end_bounds(s@, share_start as int, false); }
            if server_end > 2 && share_end > share_start {
                Some((PrefixKind::UNC, share_end))
            } else {
                None
            }
        }
    } else if is_drive_at_exec(s, 0) {
        Some((PrefixKind::Disk, 2))
    } else {
        None
    }
}

/// The prefix of a Windows path, with its kind and its length in characters.
pub fn path_prefix(path: &str) -> (r: Option<(PrefixKind, usize)>)
    ensures
        match r {
            Some((kind, len)) => spec_prefix(path@) == Some((kind, len as int)),
            None => spec_prefix(path@) is None,
        },
{
    let s = chars_of(path);
    prefix_of_chars(&s)
}

/// Whether the first component of a path is a Windows prefix such as `C:`.
pub fn has_disk(path: &str) -> (r: bool)
    requires
        path@.len() > 0,
    ensures
        r == spec_prefix(path@) is Some,
{
    path_prefix(path).is_some()
}

/// The prefix (such as `C:`) with which a Windows path begins, as it is written in the path.
pub fn get_disk(path: &str) -> (r: &str)
    requires
        spec_prefix(path@) is Some,
    ensures
        r@ == path@.take(spec_prefix(path@).unwrap().1),
{
    let s = chars_of(path);
    match prefix_of_chars(&s) {
        Some((_, len)) => path.substring_char(0, len),
        None => path.substring_char(0, 0),
    }
}

/// Whether a Windows path has a root: a separator after its prefix, or a prefix that implies one.
pub fn has_root(path: &str) -> (r: bool)
    ensures
        r == spec_has_root(path@),
{
    let s = chars_of(path);
    match prefix_of_chars(&s) {
        Some((kind, len)) => {
            match kind {
                PrefixKind::Disk => len < s.len() && is_sep_exec(s[len]),
                _ => true,
            }
        },
        None => s.len() > 0 && is_sep_exec(s[0]),
    }
}

proof fn lemma_component_end_take(s: Seq<char>, m: int, start: int, verbatim: bool)
    requires
        0 <= start <= component_end(s, start, verbatim) <= m <= s.len(),
    ensures
        component_end(s.take(m), start, verbatim) == component_end(s, start, verbatim),
    decreases s.len() - start,
{
    if start < m {
        if !is_component_sep(s[start], verbatim) {
            lemma_component_end_bounds(s, start + 1, verbatim);
            lemma_component_end_take(s, m, start + 1, verbatim);
        }
    } else {
        if start < s.len() && !is_component_sep(s[start], verbatim) {
            lemma_component_end_bounds(s, start + 1, verbatim);
        }
    }
}

/// A prefix read on its own is the same prefix: cutting a path down to its prefix
/// leaves a path whose prefix is all of it, of the same kind.
pub proof fn lemma_prefix_of_prefix(s: Seq<char>)
    requires
        spec_prefix(s) is Some,
    ensures
        spec_prefix(s.take(spec_prefix(s).unwrap().1)) == spec_prefix(s),
{
    let (kind, n) = spec_prefix(s).unwrap();
    let t = s.take(n);
    if s.len() >= 2 && is_sep(s[0]) && is_sep(s[1]) {
        if s.len() >= 4 && s[0] == '\\' && s[1] == '\\' && s[2] == '?' && s[3] == '\\' {
            if s.len() >= 8 && s[4] == 'U' && s[5] == 'N' && s[6] == 'C' && is_sep(s[7]) {
                let server_end = component_end(s, 8, true);
                lemma_component_end_bounds(s, 8, true);
                let share_start = after_separator(s, server_end);
                let share_end = component_end(s, share_start, true);
                lemma_component_end_bounds(s, share_start, true);
                lemma_component_end_take(s, n, 8, true);
                if share_end > share_start {
                    lemma_component_end_take(s, n, share_start, true);
                } else {
                    assert(component_end(t, after_separator(t, server_end), true) == n);
                }
            } else if is_drive_at(s, 4) && (s.len() == 6 || is_sep(s[6])) {
            } else {
                lemma_component_end_bounds(s, 4, true);
                lemma_component_end_take(s, n, 4, true);
                if n == 6 && s.len() > 6 {
                    assert(is_component_sep(s[6], true));
                }
            }
        } else if s.len() >= 4 && s[2] == '.' && is_sep(s[3]) {
            lemma_component_end_bounds(s, 4, false);
            lemma_component_end_take(s, n, 4, false);
        } else {
            let server_end = component_end(s, 2, false);
            lemma_component_end_bounds(s, 2, false);
            let share_start = after_separator(s, server_end);
            lemma_component_end_bounds(s, share_start, false);
            lemma_component_end_take(s, n, 2, false);
            lemma_component_end_take(s, n, share_start, false);
        }
    }
}

/// A prefix is at least two characters long and no longer than the path.
pub proof fn lemma_prefix_len(s: Seq<char>)
    requires
        spec_prefix(s) is Some,
    ensures
        2 <= spec_prefix(s).unwrap().1 <= s.len(),
{
    lemma_component_end_bounds(s, 2, false);
    lemma_component_end_bounds(s, 4, false);
    lemma_component_end_bounds(s, 4, true);
    lemma_component_end_bounds(s, 8, true);
    if s.len() >= 8 {
        let e = component_end(s, 8, true);
        lemma_component_end_bounds(s, after_separator(s, e), true);
    }
    let e2 = component_end(s, 2, false);
    if s.len() >= 2 {
        lemma_component_end_bounds(s, after_separator(s, e2), false);
    }
}

proof fn lemma_component_end_append(s: Seq<char>, t: Seq<char>, start: int, verbatim: bool)
    requires
        0 <= start <= s.len(),
        t.len() > 0,
        t[0] == '\\',
    ensures
        component_end(s + t, start, verbatim) == component_end(s, start, verbatim),
    decreases s.len() - start,
{
    let u = s + t;
    if start < s.len() {
        assert(u[start] == s[start]);
        if !is_component_sep(s[start], verbatim) {
            lemma_component_end_append(s, t, start + 1, verbatim);
        }
    } else {
        assert(u[start] == '\\');
    }
}

/// When appending `t` (which starts with `\`) to `s` changes its prefix: `s` has a verbatim
/// UNC prefix whose server name runs to the end of `s` and `t` goes on after its `\` (that
/// part becomes the share), or `s` is `\\?\UNC` itself (appending makes it a verbatim UNC
/// prefix).
pub open spec fn appending_changes_prefix(s: Seq<char>, t: Seq<char>) -> bool {
    ||| (spec_prefix(s) matches Some((k, _)) && k == PrefixKind::VerbatimUNC && component_end(
        s,
        8,
        true,
    ) == s.len() && t.len() > 1 && t[1] != '\\')
    ||| (s.len() == 7 && s[0] == '\\' && s[1] == '\\' && s[2] == '?' && s[3] == '\\' && s[4]
        == 'U' && s[5] == 'N' && s[6] == 'C')
}

/// Appending a component after a `\` keeps a path's prefix, kind and length alike, except
/// where `appending_changes_prefix` holds.
pub proof fn lemma_prefix_kept_by_appending(s: Seq<char>, t: Seq<char>)
    requires
        spec_prefix(s) is Some,
        !appending_changes_prefix(s, t),
        t.len() > 0,
        t[0] == '\\',
    ensures
        spec_prefix(s + t) == spec_prefix(s),
{
    let u = s + t;
    lemma_prefix_len(s);
    assert(forall|i: int| 0 <= i < s.len() ==> u[i] == s[i]);
    assert(u[s.len() as int] == '\\');
    assert(u.len() == s.len() + t.len());
    if s.len() >= 2 && is_sep(s[0]) && is_sep(s[1]) {
        if s.len() >= 4 && s[0] == '\\' && s[1] == '\\' && s[2] == '?' && s[3] == '\\' {
            if s.len() >= 8 && s[4] == 'U' && s[5] == 'N' && s[6] == 'C' && is_sep(s[7]) {
                let server_end = component_end(s, 8, true);
                lemma_component_end_bounds(s, 8, true);
                lemma_component_end_append(s, t, 8, true);
                let share_start = after_separator(s, server_end);
                if server_end < s.len() {
                    lemma_component_end_append(s, t, share_start, true);
                } else {
                    assert(after_separator(u, server_end) == s.len() + 1);
                    if s.len() + 1 < u.len() {
                        assert(u[s.len() + 1 as int] == t[1]);
                    }
                    assert(component_end(u, s.len() + 1 as int, true) == s.len() + 1);
                }
            } else if is_drive_at(s, 4) && (s.len() == 6 || is_sep(s[6])) {
            } else {
                lemma_component_end_append(s, t, 4, true);
                if s.len() < 8 {
                    assert(!(u[4] == 'U' && u[5] == 'N' && u[6] == 'C' && is_sep(u[7])));
                }
            }
        } else if s.len() >= 4 && s[2] == '.' && is_sep(s[3]) {
            lemma_component_end_append(s, t, 4, false);
        } else {
            let server_end = component_end(s, 2, false);
            lemma_component_end_bounds(s, 2, false);
            lemma_component_end_append(s, t, 2, false);
            let share_start = after_separator(s, server_end);
            lemma_component_end_bounds(s, share_start, false);
            lemma_component_end_append(s, t, share_start, false);
        }
    }
}

/// Which paths have a root, read off their first characters: a path that starts with a
/// separator (`\work`, `\\server\share`, `\\?\...`) has one, and a path that does not
/// has one exactly when it starts with a drive, a letter of either case and `:`, followed by
/// a separator (`C:\work` and `x:/work` have one, `C:` and `c:work` do not).
pub proof fn lemma_has_root_exactly(s: Seq<char>)
    ensures
        spec_has_root(s) == ((s.len() > 0 && is_sep(s[0])) || (s.len() > 2 && is_ascii_alpha(s[0])
            && s[1] == ':' && is_sep(s[2]))),
{
}

/// Whether a path has a root depends only on the kind of its prefix and on whether a
/// separator follows that prefix: two paths that agree on both agree on having a root.
pub proof fn lemma_has_root_by_prefix(s: Seq<char>, t: Seq<char>)
    requires
        spec_prefix(s) is Some,
        spec_prefix(t) is Some,
        spec_prefix(s).unwrap().0 == spec_prefix(t).unwrap().0,
        ({
            let n = spec_prefix(s).unwrap().1;
            let m = spec_prefix(t).unwrap().1;
            (n < s.len() && is_sep(s[n])) == (m < t.len() && is_sep(t[m]))
        }),
    ensures
        spec_has_root(s) == spec_has_root(t),
{
}

/// A drive path, `X:` in either case followed by a separator, has both a prefix (the
/// drive, its first two characters) and a root.
pub proof fn lemma_drive_path_has_disk_and_root(s: Seq<char>)
    requires
        s.len() > 2,
        is_ascii_alpha(s[0]),
        s[1] == ':',
        is_sep(s[2]),
    ensures
        spec_prefix(s) == Some((PrefixKind::Disk, 2int)),
        spec_has_root(s),
{
}

proof fn lemma_component_end_at(s: Seq<char>, start: int, end: int, verbatim: bool)
    requires
        0 <= start <= end <= s.len(),
        forall|j: int| start <= j < end ==> !is_component_sep(#[trigger] s[j], verbatim),
        end == s.len() || is_component_sep(s[end], verbatim),
    ensures
        component_end(s, start, verbatim) == end,
    decreases end - start,
{
    if start < end {
        lemma_component_end_at(s, start + 1, end, verbatim);
    }
}

/// No separator of a component in `c`.
pub open spec fn no_component_sep(c: Seq<char>, verbatim: bool) -> bool {
    forall|j: int| 0 <= j < c.len() ==> !is_component_sep(#[trigger] c[j], verbatim)
}

/// What may follow a prefix: nothing, or a separator and then anything.
pub open spec fn ends_component(rest: Seq<char>, verbatim: bool) -> bool {
    rest.len() == 0 || is_component_sep(rest[0], verbatim)
}

/// The prefix of a UNC path `\\server\share...` is `\\server\share`: the two separators,
/// the server's name, a separator and the share's name (where the server is not `?` or
/// `.`, which start a verbatim or a device path).
pub proof fn lemma_unc_prefix(server: Seq<char>, share: Seq<char>, rest: Seq<char>)
    requires
        server.len() > 0,
        share.len() > 0,
        server != "?"@,
        server != "."@,
        no_component_sep(server, false),
        no_component_sep(share, false),
        ends_component(rest, false),
    ensures
        spec_prefix("\\\\"@ + server + "\\"@ + share + rest) == Some(
            (PrefixKind::UNC, server.len() + share.len() + 3int),
        ),
{
    reveal_strlit("\\\\");
    reveal_strlit("\\");
    reveal_strlit("?");
    reveal_strlit(".");
    let p = "\\\\"@ + server + "\\"@ + share + rest;
    let a: int = server.len() + 2int;
    let b: int = a + 1 + share.len();
    assert forall|j: int| 2 <= j < a implies #[trigger] p[j] == server[j - 2] by {}
    assert forall|j: int| a + 1 <= j < b implies #[trigger] p[j] == share[j - a - 1] by {}
    assert(p[a] == '\\');
    assert forall|j: int| 2 <= j < a implies !is_component_sep(#[trigger] p[j], false) by {
        assert(p[j] == server[j - 2]);
    }
    assert forall|j: int| a + 1 <= j < b implies !is_component_sep(#[trigger] p[j], false) by {
        assert(p[j] == share[j - a - 1]);
    }
    if b < p.len() {
        assert(p[b] == rest[0]);
    }
    lemma_component_end_at(p, 2, a, false);
    lemma_component_end_at(p, a + 1, b, false);
    if p[2] == '?' && p[3] == '\\' {
        assert(server.len() == 1);
        assert(server =~= "?"@);
    }
    if p.len() >= 4 && p[2] == '.' && is_sep(p[3]) {
        assert(server.len() == 1);
        assert(server =~= "."@);
    }
}

/// The prefix of a device path `\\.\device...` is `\\.\device`.
pub proof fn lemma_device_prefix(device: Seq<char>, rest: Seq<char>)
    requires
        no_component_sep(device, false),
        ends_component(rest, false),
    ensures
        spec_prefix("\\\\.\\"@ + device + rest) == Some((PrefixKind::DeviceNS, device.len() + 4int)),
{
    reveal_strlit("\\\\.\\");
    let p = "\\\\.\\"@ + device + rest;
    let a: int = device.len() + 4int;
    assert forall|j: int| 4 <= j < a implies !is_component_sep(#[trigger] p[j], false) by {
        assert(p[j] == device[j - 4]);
    }
    if a < p.len() {
        assert(p[a] == rest[0]);
    }
    lemma_component_end_at(p, 4, a, false);
}

/// The prefix of a verbatim drive path `\\?\X:\...` is `\\?\X:`, whatever the case of the
/// drive letter.
pub proof fn lemma_verbatim_disk_prefix(letter: char, rest: Seq<char>)
    requires
        is_ascii_alpha(letter),
        ends_component(rest, false),
    ensures
        spec_prefix("\\\\?\\"@ + seq![letter, ':'] + rest) == Some((PrefixKind::VerbatimDisk, 6int)),
{
    reveal_strlit("\\\\?\\");
    let p = "\\\\?\\"@ + seq![letter, ':'] + rest;
    assert(p[4] == letter);
    assert(p[5] == ':');
    if p.len() > 6 {
        assert(p[6] == rest[0]);
    }
    if p.len() >= 8 {
        assert(!(p[4] == 'U' && p[5] == 'N'));
    }
}

/// The prefix of a verbatim UNC path `\\?\UNC\server\share\...` is
/// `\\?\UNC\server\share`; only `\` separates its parts.
pub proof fn lemma_verbatim_unc_prefix(server: Seq<char>, share: Seq<char>, rest: Seq<char>)
    requires
        share.len() > 0,
        no_component_sep(server, true),
        no_component_sep(share, true),
        ends_component(rest, true),
    ensures
        spec_prefix("\\\\?\\UNC\\"@ + server + "\\"@ + share + rest) == Some(
            (PrefixKind::VerbatimUNC, server.len() + share.len() + 9int),
        ),
{
    reveal_strlit("\\\\?\\UNC\\");
    reveal_strlit("\\");
    let p = "\\\\?\\UNC\\"@ + server + "\\"@ + share + rest;
    let a: int = server.len() + 8int;
    let b: int = a + 1 + share.len();
    assert forall|j: int| 8 <= j < a implies !is_component_sep(#[trigger] p[j], true) by {
        assert(p[j] == server[j - 8]);
    }
    assert forall|j: int| a + 1 <= j < b implies !is_component_sep(#[trigger] p[j], true) by {
        assert(p[j] == share[j - a - 1]);
    }
    assert(p[a] == '\\');
    if b < p.len() {
        assert(p[b] == rest[0]);
    }
    lemma_component_end_at(p, 8, a, true);
    lemma_component_end_at(p, a + 1, b, true);
}

} // verus!
