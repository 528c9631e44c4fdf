//! The environment that a profile script leaves behind.
//!
//! The profile script runs in a shell that then echoes a marker line and lists its
//! environment as `NAME=value` lines. Everything before the marker is the script's own
//! output and is ignored; each later line, trimmed, that holds a `=` is one variable.
use vstd::prelude::*;
use crate::text::{chars_of, lemma_find_char_after_prefix, lemma_find_char_shift, find_char, find_in_range, lemma_find_char_bounds, range_eq, split_once, trim, trim_range};

verus! {

/// The lines of `s` from `start` on: the pieces between `\n` characters, the last one
/// included even when it is empty.
pub open spec fn lines_from(s: Seq<char>, start: int) -> Seq<Seq<char>>
    decreases s.len() - start,
{
    if start < 0 || start > s.len() {
        seq![]
    } else {
        let e = find_char(s, start, '\n');
        if e < s.len() {
            proof {
                lemma_find_char_bounds(s, start, '\n');
            }
            seq![s.subrange(start, e)] + lines_from(s, e + 1)
        } else {
            seq![s.subrange(start, s.len() as int)]
        }
    }
}

/// The lines of `s`.
pub open spec fn lines_of(s: Seq<char>) -> Seq<Seq<char>> {
    lines_from(s, 0)
}

/// The `(name, value)` pairs that the lines list after the first line that trims to `marker`
/// (or from the first line on, when `started`).
pub open spec fn env_entries(lines: Seq<Seq<char>>, marker: Seq<char>, started: bool) -> Seq<
    (Seq<char>, Seq<char>),
>
    decreases lines.len(),
{
    if lines.len() == 0 {
        seq![]
    } else {
        let line = trim(lines[0]);
        if !started {
            env_entries(lines.drop_first(), marker, line == marker)
        } else {
            let rest = env_entries(lines.drop_first(), marker, true);
            match split_once(line, '=') {
                Some(pair) => seq![pair] + rest,
                None => rest,
            }
        }
    }
}

/// The pairs of a list of `(String, String)`, taken by their text.
pub open spec fn pairs_view(v: Seq<(String, String)>) -> Seq<(Seq<char>, Seq<char>)> {
    v.map_values(|p: (String, String)| (p.0@, p.1@))
}

fn find_from(v: &Vec<char>, start: usize, c: char) -> (e: usize)
    requires
        start <= v@.len(),
    ensures
        e == find_char(v@, start as int, c),
        start <= e <= v@.len(),
{
    proof {
        lemma_find_char_bounds(v@, start as int, c);
    }
    let mut i = start;
    while i < v.len()
        invariant
            start <= i <= v@.len(),
            find_char(v@, start as int, c) == find_char(v@, i as int, c),
        decreases v@.len() - i,
    {
        if v[i] == c {
            return i;
        }
        i = i + 1;
    }
    i
}

/// The variables that the output of a profile run sets: each line after the first line
/// that trims to `marker`, trimmed and split at its first `=` into name and value.
pub fn parse_profile_env(output: &str, marker: &str) -> (r: Vec<(String, String)>)
    ensures
        pairs_view(r@) == env_entries(lines_of(output@), marker@, false),
{
    let v = chars_of(output);
    let m = chars_of(marker);
    let mut out: Vec<(String, String)> = Vec::new();
    let mut pos: usize = 0;
    let mut started = false;
    let ghost total = env_entries(lines_of(v@), m@, false);
    loop
        invariant_except_break
            pos <= v@.len(),
            pairs_view(out@) + env_entries(lines_from(v@, pos as int), m@, started) == total,
        invariant
            v@ == output@,
            m@ == marker@,
            total == env_entries(lines_of(v@), m@, false),
        ensures
            pairs_view(out@) == total,
        decreases v@.len() - pos,
    {
        let e = find_from(&v, pos, '\n');
        let ghost line = v@.subrange(pos as int, e as int);
        let ghost rest = if e < v@.len() {
            lines_from(v@, e + 1)
        } else {
            seq![]
        };
        assert(lines_from(v@, pos as int) == seq![line] + rest);
        assert((seq![line] + rest).drop_first() =~= rest);
        let ghost before = pairs_view(out@);
        let (a, b) = trim_range(&v, pos, e);
        assert(v@.subrange(a as int, b as int) == trim(line));
        if !started {
            started = range_eq(&v, a, b, &m);
        } else {
            let k = find_in_range(&v, a, b, '=');
            if k < b {
                let ghost l = v@.subrange(a as int, b as int);
                assert(l.take(k - a) =~= v@.subrange(a as int, k as int));
                assert(l.skip(k - a + 1) =~= v@.subrange(k + 1, b as int));
                let name = output.substring_char(a, k).to_owned();
                let value = output.substring_char(k + 1, b).to_owned();
                out.push((name, value));
                assert(pairs_view(out@) =~= before.push((name@, value@)));
                assert(before.push((name@, value@)) + env_entries(rest, m@, true) =~= before + (
                seq![(name@, value@)] + env_entries(rest, m@, true)));
            }
        }
        assert(pairs_view(out@) + env_entries(rest, m@, started) == total);
        if e == v.len() {
            assert(rest == Seq::<Seq<char>>::empty());
            assert(env_entries(rest, m@, started) == Seq::<(Seq<char>, Seq<char>)>::empty());
            assert(pairs_view(out@) + Seq::<(Seq<char>, Seq<char>)>::empty() =~= pairs_view(
                out@,
            ));
            break ;
        }
        pos = e + 1;
    }
    out
}

/// The text of lines, each one followed by `\n`.
pub open spec fn render_lines(lines: Seq<Seq<char>>) -> Seq<char>
    decreases lines.len(),
{
    if lines.len() == 0 {
        seq![]
    } else {
        lines[0] + seq!['\n'] + render_lines(lines.drop_first())
    }
}

/// The line `NAME=value` that lists one variable.
pub open spec fn env_line(entry: (Seq<char>, Seq<char>)) -> Seq<char> {
    entry.0 + seq!['='] + entry.1
}

/// A variable that can be listed on a line of its own and read back: its name holds no `=`,
/// neither part holds a line break, and the line has no white space to trim at either end.
pub open spec fn is_listable(entry: (Seq<char>, Seq<char>)) -> bool {
    &&& !entry.0.contains('=')
    &&& !entry.0.contains('\n')
    &&& !entry.1.contains('\n')
    &&& trim(env_line(entry)) == env_line(entry)
}

proof fn lemma_lines_shift(s: Seq<char>, k: int, j: int)
    requires
        0 <= k,
        0 <= j,
        k + j <= s.len(),
    ensures
        lines_from(s, k + j) == lines_from(s.skip(k), j),
    decreases s.len() - (k + j),
{
    let t = s.skip(k);
    lemma_find_char_shift(s, k, j, '\n');
    lemma_find_char_bounds(s, k + j, '\n');
    lemma_find_char_bounds(t, j, '\n');
    let e = find_char(s, k + j, '\n');
    if e < s.len() {
        lemma_lines_shift(s, k, e + 1 - k);
        assert(s.subrange(k + j, e) =~= t.subrange(j, e - k));
    } else {
        assert(s.subrange(k + j, s.len() as int) =~= t.subrange(j, t.len() as int));
    }
}

proof fn lemma_lines_cons(a: Seq<char>, u: Seq<char>)
    requires
        !a.contains('\n'),
    ensures
        lines_of(a + seq!['\n'] + u) == seq![a] + lines_of(u),
{
    let s = a + seq!['\n'] + u;
    assert(a + (seq!['\n'] + u) =~= s);
    lemma_find_char_after_prefix(a, seq!['\n'] + u, '\n');
    assert(s.subrange(0, a.len() as int) =~= a);
    lemma_lines_shift(s, a.len() + 1 as int, 0);
    assert(s.skip(a.len() + 1 as int) =~= u);
}

proof fn lemma_lines_render(lines: Seq<Seq<char>>, t: Seq<char>)
    requires
        forall|i: int| 0 <= i < lines.len() ==> !(#[trigger] lines[i]).contains('\n'),
    ensures
        lines_of(render_lines(lines) + t) == lines + lines_of(t),
    decreases lines.len(),
{
    if lines.len() == 0 {
        assert(render_lines(lines) + t =~= t);
        assert(lines + lines_of(t) =~= lines_of(t));
    } else {
        let rest = lines.drop_first();
        assert forall|i: int| 0 <= i < rest.len() implies !(#[trigger] rest[i]).contains('\n') by {
            assert(rest[i] == lines[i + 1]);
        }
        lemma_lines_render(rest, t);
        assert(!lines[0].contains('\n'));
        lemma_lines_cons(lines[0], render_lines(rest) + t);
        assert(render_lines(lines) + t =~= lines[0] + seq!['\n'] + (render_lines(rest) + t));
        assert(seq![lines[0]] + (rest + lines_of(t)) =~= lines + lines_of(t));
    }
}

proof fn lemma_entries_skip(pre: Seq<Seq<char>>, rest: Seq<Seq<char>>, marker: Seq<char>)
    requires
        forall|i: int| 0 <= i < pre.len() ==> trim(#[trigger] pre[i]) != marker,
    ensures
        env_entries(pre + rest, marker, false) == env_entries(rest, marker, false),
    decreases pre.len(),
{
    if pre.len() > 0 {
        let tail = pre.drop_first();
        assert forall|i: int| 0 <= i < tail.len() implies trim(#[trigger] tail[i]) != marker by {
            assert(tail[i] == pre[i + 1]);
        }
        lemma_entries_skip(tail, rest, marker);
        assert((pre + rest)[0] == pre[0]);
        assert((pre + rest).drop_first() =~= tail + rest);
    } else {
        assert(pre + rest =~= rest);
    }
}

proof fn lemma_entries_listed(entries: Seq<(Seq<char>, Seq<char>)>, marker: Seq<char>)
    requires
        forall|i: int| 0 <= i < entries.len() ==> is_listable(#[trigger] entries[i]),
    ensures
        env_entries(
            entries.map_values(|p: (Seq<char>, Seq<char>)| env_line(p)) + seq![Seq::<char>::empty()],
            marker,
            true,
        ) == entries,
    decreases entries.len(),
{
    let lines = entries.map_values(|p: (Seq<char>, Seq<char>)| env_line(p)) + seq![
        Seq::<char>::empty(),
    ];
    if entries.len() == 0 {
        assert(lines =~= seq![Seq::<char>::empty()]);
        assert(lines.drop_first() =~= Seq::<Seq<char>>::empty());
        assert(trim(Seq::<char>::empty()) == Seq::<char>::empty());
        lemma_find_char_bounds(Seq::<char>::empty(), 0, '=');
        assert(split_once(Seq::<char>::empty(), '=') is None);
        assert(env_entries(lines.drop_first(), marker, true) =~= Seq::<(Seq<char>, Seq<char>)>::empty());
        assert(entries =~= Seq::<(Seq<char>, Seq<char>)>::empty());
    } else {
        let tail = entries.drop_first();
        assert forall|i: int| 0 <= i < tail.len() implies is_listable(#[trigger] tail[i]) by {
            assert(tail[i] == entries[i + 1]);
        }
        lemma_entries_listed(tail, marker);
        let p = entries[0];
        assert(is_listable(p));
        assert(lines[0] == env_line(p));
        assert(lines.drop_first() =~= tail.map_values(|p: (Seq<char>, Seq<char>)| env_line(p))
            + seq![Seq::<char>::empty()]);
        lemma_find_char_after_prefix(p.0, seq!['='] + p.1, '=');
        assert(p.0 + (seq!['='] + p.1) =~= env_line(p));
        assert(env_line(p).take(p.0.len() as int) =~= p.0);
        assert(env_line(p).skip(p.0.len() + 1 as int) =~= p.1);
        assert(split_once(env_line(p), '=') == Some(p));
        assert(trim(lines[0]) == env_line(p));
        assert(env_entries(lines, marker, true) == seq![p] + env_entries(lines.drop_first(), marker, true));
        assert(seq![p] + tail =~= entries);
    }
}

/// Reading back a listing: when a shell prints some output whose lines do not trim to the
/// marker, then the marker line, then each variable as a `NAME=value` line, parsing that
/// text yields exactly those variables, in order.
pub proof fn lemma_parse_listed_env(
    pre: Seq<Seq<char>>,
    marker: Seq<char>,
    entries: Seq<(Seq<char>, Seq<char>)>,
)
    requires
        forall|i: int|
            0 <= i < pre.len() ==> !(#[trigger] pre[i]).contains('\n') && trim(pre[i]) != marker,
        !marker.contains('\n'),
        trim(marker) == marker,
        forall|i: int| 0 <= i < entries.len() ==> is_listable(#[trigger] entries[i]),
    ensures
        env_entries(
            lines_of(
                render_lines(pre) + render_lines(seq![marker]) + render_lines(
                    entries.map_values(|p: (Seq<char>, Seq<char>)| env_line(p)),
                ),
            ),
            marker,
            false,
        ) == entries,
{
    let listed = entries.map_values(|p: (Seq<char>, Seq<char>)| env_line(p));
    assert forall|i: int| 0 <= i < listed.len() implies !(#[trigger] listed[i]).contains('\n') by {
        let p = entries[i];
        assert(is_listable(p));
        if env_line(p).contains('\n') {
            let j = choose|j: int| 0 <= j < env_line(p).len() && env_line(p)[j] == '\n';
            if j < p.0.len() {
                assert(p.0[j] == '\n');
            } else if j > p.0.len() {
                assert(p.1[j - p.0.len() - 1] == '\n');
            }
        }
    }
    let body = render_lines(listed);
    lemma_lines_render(listed, Seq::<char>::empty());
    assert(body + Seq::<char>::empty() =~= body);
    lines_of_empty();
    let mline = seq![marker];
    assert forall|i: int| 0 <= i < mline.len() implies !(#[trigger] mline[i]).contains('\n') by {}
    lemma_lines_render(mline, body);
    lemma_lines_render(pre, render_lines(mline) + body);
    let text = render_lines(pre) + render_lines(mline) + body;
    assert(text =~= render_lines(pre) + (render_lines(mline) + body));
    let tail_lines = listed + seq![Seq::<char>::empty()];
    assert(lines_of(text) == pre + (mline + tail_lines));
    lemma_entries_skip(pre, mline + tail_lines, marker);
    assert((mline + tail_lines)[0] == marker);
    assert((mline + tail_lines).drop_first() =~= tail_lines);
    lemma_entries_listed(entries, marker);
}

proof fn lines_of_empty()
    ensures
        lines_of(Seq::<char>::empty()) == seq![Seq::<char>::empty()],
{
    lemma_find_char_bounds(Seq::<char>::empty(), 0, '\n');
    assert(Seq::<char>::empty().subrange(0, 0) =~= Seq::<char>::empty());
}

} // verus!
