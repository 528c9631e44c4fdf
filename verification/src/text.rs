use vstd::prelude::*;

verus! {

/// The characters of `s`, in order.
pub fn chars_of(s: &str) -> (v: Vec<char>)
    ensures
        v@ == s@,
{
    broadcast use vstd::string::group_string_axioms;
    let mut v: Vec<char> = Vec::new();
    for c in it: s.chars()
        invariant
            it.seq() == s@,
            v@ == it.seq().take(it.index() as int),
    {
        v.push(c);
    }
    v
}

/// Unicode `White_Space`: the characters that `char::is_whitespace` accepts.
pub open spec fn is_white_space(c: char) -> bool {
    ||| ('\u{9}' <= c && c <= '\u{d}')
    ||| c == ' '
    ||| c == '\u{85}'
    ||| c == '\u{a0}'
    ||| c == '\u{1680}'
    ||| ('\u{2000}' <= c && c <= '\u{200a}')
    ||| c == '\u{2028}'
    ||| c == '\u{2029}'
    ||| c == '\u{202f}'
    ||| c == '\u{205f}'
    ||| c == '\u{3000}'
}

/// `s` without its leading white space.
pub open spec fn trim_start(s: Seq<char>) -> Seq<char>
    decreases s.len(),
{
    if s.len() > 0 && is_white_space(s[0]) {
        trim_start(s.drop_first())
    } else {
        s
    }
}

/// `s` without its trailing white space.
pub open spec fn trim_end(s: Seq<char>) -> Seq<char>
    decreases s.len(),
{
    if s.len() > 0 && is_white_space(s.last()) {
        trim_end(s.drop_last())
    } else {
        s
    }
}

/// `s` without leading and trailing white space, as `str::trim` gives it.
pub open spec fn trim(s: Seq<char>) -> Seq<char> {
    trim_end(trim_start(s))
}

/// Index of the first `c` in `s` at or after `start`, or the length of `s` if there is none.
pub open spec fn find_char(s: Seq<char>, start: int, c: char) -> int
    decreases s.len() - start,
{
    if start >= s.len() {
        s.len() as int
    } else if start >= 0 && s[start] == c {
        start
    } else {
        find_char(s, start + 1, c)
    }
}

pub proof fn lemma_find_char_bounds(s: Seq<char>, start: int, c: char)
    requires
        0 <= start,
    ensures
        start <= s.len() ==> start <= find_char(s, start, c) <= s.len(),
        start > s.len() ==> find_char(s, start, c) == s.len(),
        find_char(s, start, c) < s.len() ==> s[find_char(s, start, c)] == c,
        forall|i: int| start <= i < find_char(s, start, c) ==> s[i] != c,
    decreases s.len() - start,
{
    if start < s.len() && s[start] != c {
        lemma_find_char_bounds(s, start + 1, c);
    }
}

/// Where `c` first occurs, the text before it and the text after it (`str::split_once`).
pub open spec fn split_once(s: Seq<char>, c: char) -> Option<(Seq<char>, Seq<char>)> {
    let k = find_char(s, 0, c);
    if k < s.len() {
        Some((s.take(k), s.skip(k + 1)))
    } else {
        None
    }
}

pub fn is_white_space_exec(c: char) -> (r: bool)
    ensures
        r == is_white_space(c),
{
    ('\u{9}' <= c && c <= '\u{d}') || c == ' ' || c == '\u{85}' || c == '\u{a0}' || c == '\u{1680}'
        || ('\u{2000}' <= c && c <= '\u{200a}') || c == '\u{2028}' || c == '\u{2029}' || c
        == '\u{202f}' || c == '\u{205f}' || c == '\u{3000}'
}

/// The bounds, within `[a, b)`, of `v[a..b]` trimmed of white space at both ends.
pub fn trim_range(v: &Vec<char>, a: usize, b: usize) -> (r: (usize, usize))
    requires
        a <= b <= v@.len(),
    ensures
        a <= r.0 <= r.1 <= b,
        v@.subrange(r.0 as int, r.1 as int) == trim(v@.subrange(a as int, b as int)),
{
    let mut i = a;
    while i < b && is_white_space_exec(v[i])
        invariant
            a <= i <= b <= v@.len(),
            trim_start(v@.subrange(a as int, b as int)) == trim_start(v@.subrange(i as int, b as int)),
        decreases b - i,
    {
        assert(v@.subrange(i as int, b as int).drop_first() =~= v@.subrange(i + 1, b as int));
        i = i + 1;
    }
    assert(trim_start(v@.subrange(i as int, b as int)) == v@.subrange(i as int, b as int));
    let mut j = b;
    while j > i && is_white_space_exec(v[j - 1])
        invariant
            a <= i <= j <= b <= v@.len(),
            trim(v@.subrange(a as int, b as int)) == trim_end(v@.subrange(i as int, j as int)),
        decreases j - i,
    {
        assert(v@.subrange(i as int, j as int).drop_last() =~= v@.subrange(i as int, j - 1));
        j = j - 1;
    }
    (i, j)
}

/// The index of the first `c` in `v[a..b]`, counted from `a`, or `b` when there is none.
pub fn find_in_range(v: &Vec<char>, a: usize, b: usize, c: char) -> (k: usize)
    requires
        a <= b <= v@.len(),
    ensures
        a <= k <= b,
        k == a + find_char(v@.subrange(a as int, b as int), 0, c),
{
    let ghost sub = v@.subrange(a as int, b as int);
    let mut i = a;
    while i < b
        invariant
            a <= i <= b <= v@.len(),
            sub == v@.subrange(a as int, b as int),
            find_char(sub, 0, c) == find_char(sub, i - a, c),
        decreases b - i,
    {
        if v[i] == c {
            return i;
        }
        i = i + 1;
    }
    i
}

/// Whether `v[a..b]` holds exactly the characters of `w`.
pub fn range_eq(v: &Vec<char>, a: usize, b: usize, w: &Vec<char>) -> (r: bool)
    requires
        a <= b <= v@.len(),
    ensures
        r == (v@.subrange(a as int, b as int) == w@),
{
    if b - a != w.len() {
        return false;
    }
    let mut i: usize = 0;
    while i < w.len()
        invariant
            a <= b <= v@.len(),
            b - a == w@.len(),
            i <= w@.len(),
            forall|j: int| 0 <= j < i ==> v@[a + j] == w@[j],
        decreases w@.len() - i,
    {
        if v[a + i] != w[i] {
            assert(v@.subrange(a as int, b as int)[i as int] != w@[i as int]);
            return false;
        }
        i = i + 1;
    }
    assert(v@.subrange(a as int, b as int) =~= w@);
    true
}

/// When `a` holds no `c` and `rest` starts with `c`, the first `c` of `a + rest` ends `a`.
pub proof fn lemma_find_char_after_prefix(a: Seq<char>, rest: Seq<char>, c: char)
    requires
        !a.contains(c),
        rest.len() > 0,
        rest[0] == c,
    ensures
        find_char(a + rest, 0, c) == a.len(),
{
    let s = a + rest;
    lemma_find_char_bounds(s, 0, c);
    let k = find_char(s, 0, c);
    if k < a.len() {
        assert(s[k] == a[k]);
        assert(a.contains(a[k]));
    }
    if k > a.len() {
        assert(s[a.len() as int] == c);
    }
}

/// Searching `s` from `k + j` is searching `s.skip(k)` from `j`, shifted by `k`.
pub proof fn lemma_find_char_shift(s: Seq<char>, k: int, j: int, c: char)
    requires
        0 <= k <= s.len(),
        0 <= j,
    ensures
        find_char(s, k + j, c) == k + find_char(s.skip(k), j, c),
    decreases s.len() - (k + j),
{
    if k + j < s.len() && s[k + j] != c {
        lemma_find_char_shift(s, k, j + 1, c);
    }
}

/// Whether two strings hold the same characters.
pub fn str_eq(a: &str, b: &str) -> (r: bool)
    ensures
        r == (a@ == b@),
{
    let va = chars_of(a);
    let vb = chars_of(b);
    assert(va@.subrange(0, va@.len() as int) =~= va@);
    range_eq(&va, 0, va.len(), &vb)
}

/// The texts of a list of strings.
pub open spec fn strings_view(v: Seq<String>) -> Seq<Seq<char>> {
    v.map_values(|s: String| s@)
}

/// `a` followed by `b`.
pub fn concat2(a: &str, b: &str) -> (r: String)
    ensures
        r@ == a@ + b@,
{
    let mut r = a.to_owned();
    r.append(b);
    r
}

/// `a`, `b` and `c`, one after the other.
pub fn concat3(a: &str, b: &str, c: &str) -> (r: String)
    ensures
        r@ == a@ + b@ + c@,
{
    let mut r = a.to_owned();
    r.append(b);
    r.append(c);
    r
}

/// The elements of `parts` with `sep` between each two of them (`[T]::join`).
pub open spec fn join_with(parts: Seq<Seq<char>>, sep: Seq<char>) -> Seq<char>
    decreases parts.len(),
{
    if parts.len() == 0 {
        seq![]
    } else if parts.len() == 1 {
        parts[0]
    } else {
        join_with(parts.drop_last(), sep) + sep + parts.last()
    }
}

/// The strings `parts[from..]` with `sep` between each two of them.
pub fn join_from(parts: &Vec<String>, from: usize, sep: &str) -> (r: String)
    requires
        from <= parts@.len(),
    ensures
        r@ == join_with(strings_view(parts@).skip(from as int), sep@),
{
    let ghost all = strings_view(parts@);
    let mut r = "".to_owned();
    let mut i = from;
    proof {
        reveal_strlit("");
        assert(all.skip(from as int).take(0) =~= Seq::<Seq<char>>::empty());
    }
    while i < parts.len()
        invariant
            from <= i <= parts@.len(),
            all == strings_view(parts@),
            r@ == join_with(all.skip(from as int).take(i - from), sep@),
        decreases parts@.len() - i,
    {
        let ghost before = all.skip(from as int).take(i - from);
        let ghost after = all.skip(from as int).take(i + 1 - from);
        assert(after.drop_last() =~= before);
        assert(after.last() == parts@[i as int]@);
        if i > from {
            r.append(sep);
        } else {
            assert(after =~= seq![parts@[i as int]@]);
            assert(r@ =~= Seq::<char>::empty());
        }
        r.append(parts[i].as_str());
        i = i + 1;
    }
    assert(all.skip(from as int).take(parts@.len() - from) =~= all.skip(from as int));
    r
}

/// `split_once` cuts at the first `c`: when `s` holds a `c`, it gives the text before the
/// first one, which holds none, and the text after it, which together with that `c` make
/// up `s`; when `s` holds none, it gives nothing.
pub proof fn lemma_split_once_exactly(s: Seq<char>, c: char)
    ensures
        split_once(s, c) is None <==> !s.contains(c),
        split_once(s, c) matches Some((before, after)) ==> s == before + seq![c] + after
            && !before.contains(c),
{
    lemma_find_char_bounds(s, 0, c);
    let k = find_char(s, 0, c);
    if k < s.len() {
        assert(s =~= s.take(k) + seq![c] + s.skip(k + 1));
        assert(s.contains(s[k]));
        if s.take(k).contains(c) {
            let j = choose|j: int| 0 <= j < k && s.take(k)[j] == c;
            assert(s[j] == c);
        }
    } else if s.contains(c) {
        let j = choose|j: int| 0 <= j < s.len() && s[j] == c;
        assert(s[j] != c);
    }
}

/// Trimming takes white space off both ends and nothing else: what is left is a stretch
/// of `s` that starts and ends with no white space, and only white space lies before and
/// after it.
pub proof fn lemma_trim_exactly(s: Seq<char>)
    ensures
        exists|i: int|
            0 <= i && i + trim(s).len() <= s.len() && #[trigger] s.subrange(i, i + trim(s).len())
                == trim(s) && (forall|j: int| 0 <= j < i ==> is_white_space(#[trigger] s[j])) && (
            forall|j: int| i + trim(s).len() <= j < s.len() ==> is_white_space(#[trigger] s[j])),
        trim(s).len() > 0 ==> !is_white_space(trim(s)[0]) && !is_white_space(trim(s).last()),
{
    let i = lemma_trim_start_skips(s);
    let u = trim_start(s);
    lemma_trim_end_takes(u);
    if u.len() > 0 && trim(s).len() > 0 {
        assert(trim(s)[0] == u[0]);
    }
    let t = trim(s);
    assert(s.subrange(i, i + t.len()) =~= t);
    assert forall|j: int| i + t.len() <= j < s.len() implies is_white_space(#[trigger] s[j]) by {
        assert(s[j] == u[j - i]);
    }
}

proof fn lemma_trim_start_skips(s: Seq<char>) -> (i: int)
    ensures
        0 <= i <= s.len(),
        trim_start(s) == s.skip(i),
        forall|j: int| 0 <= j < i ==> is_white_space(#[trigger] s[j]),
        trim_start(s).len() > 0 ==> !is_white_space(trim_start(s)[0]),
    decreases s.len(),
{
    if s.len() > 0 && is_white_space(s[0]) {
        let k = lemma_trim_start_skips(s.drop_first());
        assert(s.drop_first().skip(k) =~= s.skip(k + 1));
        assert forall|j: int| 0 <= j < k + 1 implies is_white_space(#[trigger] s[j]) by {
            if j > 0 {
                assert(s[j] == s.drop_first()[j - 1]);
            }
        }
        k + 1
    } else {
        assert(s.skip(0) =~= s);
        0
    }
}

proof fn lemma_trim_end_takes(s: Seq<char>)
    ensures
        trim_end(s) == s.take(trim_end(s).len() as int),
        trim_end(s).len() <= s.len(),
        forall|j: int| trim_end(s).len() <= j < s.len() ==> is_white_space(#[trigger] s[j]),
        trim_end(s).len() > 0 ==> !is_white_space(trim_end(s).last()),
        trim_end(s).len() > 0 && s.len() > 0 ==> trim_end(s)[0] == s[0],
    decreases s.len(),
{
    if s.len() > 0 && is_white_space(s.last()) {
        lemma_trim_end_takes(s.drop_last());
        let n = trim_end(s).len() as int;
        assert(s.drop_last().take(n) =~= s.take(n));
        assert forall|j: int| n <= j < s.len() implies is_white_space(#[trigger] s[j]) by {
            if j < s.len() - 1 {
                assert(s[j] == s.drop_last()[j]);
            }
        }
    } else {
        assert(s.take(s.len() as int) =~= s);
    }
}

} // verus!
