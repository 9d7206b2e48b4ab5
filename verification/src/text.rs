//! Verified text utilities: whitespace trimming, prefix tests, and
//! splitting on a character or on a delimiter string.

use vstd::prelude::*;

verus! {

/// The characters treated as whitespace when trimming: the Unicode
/// `White_Space` set.
pub open spec fn is_space_char(c: char) -> bool {
    c == ' ' || c == '\t' || c == '\n' || c == '\r' || c == '\u{b}' || c == '\u{c}'
        || c == '\u{85}' || c == '\u{a0}' || c == '\u{1680}' || c == '\u{2000}'
        || c == '\u{2001}' || c == '\u{2002}' || c == '\u{2003}' || c == '\u{2004}'
        || c == '\u{2005}' || c == '\u{2006}' || c == '\u{2007}' || c == '\u{2008}'
        || c == '\u{2009}' || c == '\u{200a}' || c == '\u{2028}' || c == '\u{2029}'
        || c == '\u{202f}' || c == '\u{205f}' || c == '\u{3000}'
}

/// Runtime whitespace test matching [`is_space_char`].
pub fn is_space(c: char) -> (r: bool)
    ensures
        r == is_space_char(c),
{
    c == ' ' || c == '\t' || c == '\n' || c == '\r' || c == '\u{b}' || c == '\u{c}'
        || c == '\u{85}' || c == '\u{a0}' || c == '\u{1680}' || c == '\u{2000}'
        || c == '\u{2001}' || c == '\u{2002}' || c == '\u{2003}' || c == '\u{2004}'
        || c == '\u{2005}' || c == '\u{2006}' || c == '\u{2007}' || c == '\u{2008}'
        || c == '\u{2009}' || c == '\u{200a}' || c == '\u{2028}' || c == '\u{2029}'
        || c == '\u{202f}' || c == '\u{205f}' || c == '\u{3000}'
}

/// A sequence is blank when every character in it is whitespace.
pub open spec fn is_blank(s: Seq<char>) -> bool {
    forall|i: int| 0 <= i < s.len() ==> is_space_char(#[trigger] s[i])
}

/// What remains of `s` after removing leading whitespace.
pub open spec fn trim_start_spec(s: Seq<char>) -> Seq<char>
    decreases s.len(),
{
    if s.len() > 0 && is_space_char(s[0]) {
        trim_start_spec(s.drop_first())
    } else {
        s
    }
}

/// What remains of `s` after removing trailing whitespace.
pub open spec fn trim_end_spec(s: Seq<char>) -> Seq<char>
    decreases s.len(),
{
    if s.len() > 0 && is_space_char(s.last()) {
        trim_end_spec(s.drop_last())
    } else {
        s
    }
}

/// What remains of `s` after removing leading and trailing whitespace.
pub open spec fn trim_spec(s: Seq<char>) -> Seq<char> {
    trim_end_spec(trim_start_spec(s))
}

proof fn lemma_trim_start_range(s: Seq<char>, i: int)
    requires
        0 <= i <= s.len(),
        forall|k: int| 0 <= k < i ==> is_space_char(#[trigger] s[k]),
        i < s.len() ==> !is_space_char(s[i]),
    ensures
        trim_start_spec(s) =~= s.subrange(i, s.len() as int),
    decreases i,
{
    if i == 0 {
        if s.len() > 0 && is_space_char(s[0]) {
        } else {
            assert(trim_start_spec(s) == s);
        }
    } else {
        let t = s.drop_first();
        lemma_trim_start_range(t, i - 1);
        assert(trim_start_spec(s) == trim_start_spec(t));
    }
}

proof fn lemma_trim_end_range(s: Seq<char>, j: int)
    requires
        0 <= j <= s.len(),
        forall|k: int| j <= k < s.len() ==> is_space_char(#[trigger] s[k]),
        j > 0 ==> !is_space_char(s[j - 1]),
    ensures
        trim_end_spec(s) =~= s.subrange(0, j),
    decreases s.len() - j,
{
    if j == s.len() {
        if s.len() > 0 && is_space_char(s.last()) {
            assert(false);
        }
    } else {
        let t = s.drop_last();
        lemma_trim_end_range(t, j);
        assert(trim_end_spec(s) == trim_end_spec(t));
    }
}

/// Removes leading and trailing whitespace from a string slice.
pub fn trim(s: &str) -> (r: &str)
    ensures
        r@ == trim_spec(s@),
{
    let n = s.unicode_len();
    let mut i: usize = 0;
    while i < n && is_space(s.get_char(i))
        invariant
            0 <= i <= n == s@.len(),
            forall|k: int| 0 <= k < i ==> is_space_char(#[trigger] s@[k]),
        decreases n - i,
    {
        i = i + 1;
    }
    let mut j: usize = n;
    while j > i && is_space(s.get_char(j - 1))
        invariant
            i <= j <= n == s@.len(),
            forall|k: int| j <= k < n ==> is_space_char(#[trigger] s@[k]),
        decreases j,
    {
        j = j - 1;
    }
    let r = s.substring_char(i, j);
    proof {
        let t = s@.subrange(i as int, s@.len() as int);
        lemma_trim_start_range(s@, i as int);
        if j == i {
            lemma_trim_end_range(t, 0);
        } else {
            lemma_trim_end_range(t, j - i);
        }
        assert(r@ =~= trim_spec(s@));
    }
    r
}

/// `p` is a prefix of `s`.
pub open spec fn has_prefix(s: Seq<char>, p: Seq<char>) -> bool {
    p.len() <= s.len() && s.subrange(0, p.len() as int) =~= p
}

/// The delimiter `d` occurs in `s` at position `i`.
pub open spec fn matches_at(s: Seq<char>, d: Seq<char>, i: int) -> bool {
    0 <= i && i + d.len() <= s.len() && s.subrange(i, i + d.len() as int) =~= d
}

/// The position of the first occurrence of `d` in `s`, or `-1` if there is
/// none.
pub open spec fn find_sub(s: Seq<char>, d: Seq<char>) -> int
    decreases s.len(),
{
    if s.len() < d.len() {
        -1
    } else if s.subrange(0, d.len() as int) =~= d {
        0
    } else if s.len() == 0 {
        -1
    } else {
        let r = find_sub(s.drop_first(), d);
        if r < 0 {
            -1
        } else {
            r + 1
        }
    }
}

proof fn lemma_matches_shift(s: Seq<char>, d: Seq<char>, i: int)
    requires
        0 <= i,
        s.len() > 0,
    ensures
        matches_at(s, d, i + 1) == matches_at(s.drop_first(), d, i),
{
    if i + 1 + d.len() <= s.len() {
        assert(s.drop_first().subrange(i, i + d.len() as int) =~= s.subrange(
            i + 1,
            i + 1 + d.len() as int,
        ));
    }
}

proof fn lemma_find_sub_props(s: Seq<char>, d: Seq<char>)
    ensures
        find_sub(s, d) == -1 ==> forall|i: int| !matches_at(s, d, i),
        find_sub(s, d) >= 0 ==> matches_at(s, d, find_sub(s, d)),
        find_sub(s, d) >= 0 ==> forall|i: int| 0 <= i < find_sub(s, d) ==> !matches_at(s, d, i),
    decreases s.len(),
{
    if s.len() < d.len() {
    } else if s.subrange(0, d.len() as int) =~= d {
    } else if s.len() == 0 {
        assert(s.subrange(0, d.len() as int) =~= d);
    } else {
        lemma_find_sub_props(s.drop_first(), d);
        let r = find_sub(s.drop_first(), d);
        assert forall|i: int| 1 <= i implies matches_at(s, d, i) == matches_at(
            s.drop_first(),
            d,
            i - 1,
        ) by {
            lemma_matches_shift(s, d, i - 1);
        }
        if r < 0 {
            assert forall|i: int| !matches_at(s, d, i) by {
                if i == 0 {
                    assert(!matches_at(s, d, 0));
                }
            }
        } else {
            lemma_matches_shift(s, d, r);
        }
    }
}

/// If `d` occurs at `j` and nowhere earlier, then `j` is where `find_sub`
/// points.
proof fn lemma_find_sub_at(s: Seq<char>, d: Seq<char>, j: int)
    requires
        matches_at(s, d, j),
        forall|i: int| 0 <= i < j ==> !matches_at(s, d, i),
    ensures
        find_sub(s, d) == j,
{
    lemma_find_sub_props(s, d);
    let r = find_sub(s, d);
    if r == -1 {
        assert(!matches_at(s, d, j));
    } else if r < j {
        assert(!matches_at(s, d, r));
    } else if r > j {
        assert(!matches_at(s, d, j));
    }
}

/// `s` split on every occurrence of the delimiter `d`, leftmost first;
/// a string without the delimiter is a single part.
pub open spec fn split_sub(s: Seq<char>, d: Seq<char>) -> Seq<Seq<char>>
    decreases s.len(),
{
    let i = find_sub(s, d);
    if d.len() > 0 && 0 <= i && i + d.len() <= s.len() {
        seq![s.subrange(0, i)] + split_sub(s.subrange(i + d.len() as int, s.len() as int), d)
    } else {
        seq![s]
    }
}

/// Tests whether `d` occurs in `s` at position `i`.
fn match_at(s: &str, d: &str, i: usize) -> (r: bool)
    requires
        i <= s@.len(),
    ensures
        r == matches_at(s@, d@, i as int),
{
    let n = s.unicode_len();
    let m = d.unicode_len();
    if m > n - i {
        return false;
    }
    let mut t: usize = 0;
    while t < m
        invariant
            0 <= t <= m == d@.len(),
            i + m <= n == s@.len(),
            forall|k: int| 0 <= k < t ==> s@[i + k] == d@[k],
        decreases m - t,
    {
        if s.get_char(i + t) != d.get_char(t) {
            assert(!matches_at(s@, d@, i as int)) by {
                assert(s@.subrange(i as int, i + m)[t as int] == s@[i + t]);
            }
            return false;
        }
        t = t + 1;
    }
    assert(s@.subrange(i as int, i + m) =~= d@);
    true
}

/// Splits `s` on every occurrence of the delimiter `d`.
pub fn split_on<'a>(s: &'a str, d: &str) -> (r: Vec<&'a str>)
    requires
        d@.len() > 0,
    ensures
        r.deep_view() =~= split_sub(s@, d@),
        r@.len() >= 1,
{
    let n = s.unicode_len();
    let m = d.unicode_len();
    let mut out: Vec<&'a str> = Vec::new();
    let mut seg_start: usize = 0;
    let mut i: usize = 0;
    proof {
        assert(s@.subrange(0, n as int) =~= s@);
        assert(out.deep_view() =~= Seq::<Seq<char>>::empty());
        assert(Seq::<Seq<char>>::empty() + split_sub(s@, d@) =~= split_sub(s@, d@));
    }
    while m <= n && i <= n - m
        invariant
            m == d@.len(),
            n == s@.len(),
            m > 0,
            0 <= seg_start <= i <= n,
            split_sub(s@, d@) =~= out.deep_view() + split_sub(
                s@.subrange(seg_start as int, n as int),
                d@,
            ),
            forall|k: int|
                0 <= k < i - seg_start ==> !matches_at(
                    s@.subrange(seg_start as int, n as int),
                    d@,
                    k,
                ),
        decreases n - i,
    {
        let ghost suffix = s@.subrange(seg_start as int, n as int);
        if match_at(s, d, i) {
            let seg = s.substring_char(seg_start, i);
            proof {
                assert(matches_at(suffix, d@, i - seg_start)) by {
                    assert(suffix.subrange(i - seg_start, i - seg_start + d@.len() as int)
                        =~= s@.subrange(i as int, i + d@.len() as int));
                }
                lemma_find_sub_at(suffix, d@, i - seg_start);
                assert(suffix.subrange(0, i - seg_start) =~= s@.subrange(
                    seg_start as int,
                    i as int,
                ));
                assert(suffix.subrange(i - seg_start + m, suffix.len() as int) =~= s@.subrange(
                    i + m,
                    n as int,
                ));
            }
            let ghost old_dv = out.deep_view();
            out.push(seg);
            proof {
                assert(out.deep_view() =~= old_dv.push(seg@));
                assert(out.deep_view() + split_sub(s@.subrange(i + m, n as int), d@) =~= old_dv
                    + split_sub(suffix, d@));
            }
            seg_start = i + m;
            i = i + m;
        } else {
            proof {
                assert(!matches_at(suffix, d@, i - seg_start)) by {
                    if matches_at(suffix, d@, i - seg_start) {
                        assert(suffix.subrange(i - seg_start, i - seg_start + d@.len() as int)
                            =~= s@.subrange(i as int, i + d@.len() as int));
                    }
                }
            }
            i = i + 1;
        }
    }
    let ghost suffix = s@.subrange(seg_start as int, n as int);
    proof {
        assert forall|k: int| !matches_at(suffix, d@, k) by {
            if 0 <= k < i - seg_start {
                assert(!matches_at(suffix, d@, k));
            } else if k >= i - seg_start {
                assert(k + d@.len() > suffix.len());
            }
        }
        lemma_find_sub_props(suffix, d@);
        if find_sub(suffix, d@) >= 0 {
            assert(matches_at(suffix, d@, find_sub(suffix, d@)));
        }
        assert(split_sub(suffix, d@) =~= seq![suffix]);
    }
    let last = s.substring_char(seg_start, n);
    let ghost old_dv = out.deep_view();
    out.push(last);
    proof {
        assert(out.deep_view() =~= old_dv.push(suffix));
        assert(out.deep_view() =~= split_sub(s@, d@));
    }
    out
}

/// What remains of `s` after repeatedly removing the prefix `p`.
pub open spec fn strip_prefix_reps(s: Seq<char>, p: Seq<char>) -> Seq<char>
    decreases s.len(),
{
    if p.len() > 0 && has_prefix(s, p) {
        strip_prefix_reps(s.subrange(p.len() as int, s.len() as int), p)
    } else {
        s
    }
}

/// Repeatedly removes the prefix `p` from the front of `s`.
pub fn strip_prefix_repeated<'a>(s: &'a str, p: &str) -> (r: &'a str)
    requires
        p@.len() > 0,
    ensures
        r@ == strip_prefix_reps(s@, p@),
{
    let mut cur: &'a str = s;
    let mut go = starts_with(cur, p);
    while go
        invariant
            p@.len() > 0,
            go == has_prefix(cur@, p@),
            strip_prefix_reps(s@, p@) == strip_prefix_reps(cur@, p@),
        decreases cur@.len(),
    {
        let m = p.unicode_len();
        let n = cur.unicode_len();
        let next = cur.substring_char(m, n);
        proof {
            assert(next@ =~= cur@.subrange(p@.len() as int, cur@.len() as int));
        }
        cur = next;
        go = starts_with(cur, p);
    }
    cur
}

/// Tests whether every character of `s` is whitespace.
pub fn is_blank_str(s: &str) -> (r: bool)
    ensures
        r == is_blank(s@),
{
    let n = s.unicode_len();
    let mut i: usize = 0;
    while i < n
        invariant
            0 <= i <= n == s@.len(),
            forall|k: int| 0 <= k < i ==> is_space_char(#[trigger] s@[k]),
        decreases n - i,
    {
        if !is_space(s.get_char(i)) {
            return false;
        }
        i = i + 1;
    }
    true
}

/// A line with a trailing carriage return removed, as `str::lines` does.
pub open spec fn drop_cr(l: Seq<char>) -> Seq<char> {
    if l.len() > 0 && l.last() == '\r' {
        l.drop_last()
    } else {
        l
    }
}

/// Removes one trailing carriage return, if present.
pub fn chomp_cr<'a>(l: &'a str) -> (r: &'a str)
    ensures
        r@ == drop_cr(l@),
{
    let n = l.unicode_len();
    if n > 0 && l.get_char(n - 1) == '\r' {
        let r = l.substring_char(0, n - 1);
        proof {
            assert(r@ =~= l@.drop_last());
        }
        r
    } else {
        l
    }
}

/// The parts joined with `sep` between consecutive parts.
pub open spec fn join_spec(parts: Seq<Seq<char>>, sep: Seq<char>) -> Seq<char>
    decreases parts.len(),
{
    if parts.len() == 0 {
        Seq::empty()
    } else if parts.len() == 1 {
        parts[0]
    } else {
        parts[0] + sep + join_spec(parts.drop_first(), sep)
    }
}

/// Joining one more part appends a separator and that part.
pub proof fn lemma_join_snoc(parts: Seq<Seq<char>>, sep: Seq<char>, i: int)
    requires
        1 <= i < parts.len(),
    ensures
        join_spec(parts.take(i + 1), sep) =~= join_spec(parts.take(i), sep) + sep + parts[i],
    decreases i,
{
    if i == 1 {
        let t2 = parts.take(2);
        assert(parts.take(1) =~= seq![parts[0]]);
        assert(t2.len() == 2);
        assert(join_spec(t2.drop_first(), sep) == parts[1]) by {
            assert(t2.drop_first() =~= seq![parts[1]]);
            assert(seq![parts[1]].len() == 1);
        }
        assert(join_spec(t2, sep) =~= t2[0] + sep + join_spec(t2.drop_first(), sep));
        assert(join_spec(parts.take(2), sep) =~= parts[0] + sep + parts[1]);
    } else {
        lemma_join_snoc(parts.drop_first(), sep, i - 1);
        assert(parts.take(i + 1).drop_first() =~= parts.drop_first().take(i));
        assert(parts.take(i).drop_first() =~= parts.drop_first().take(i - 1));
        assert(parts.drop_first()[i - 1] == parts[i]);
        assert(join_spec(parts.take(i + 1), sep) =~= parts[0] + sep + join_spec(
            parts.drop_first().take(i),
            sep,
        ));
        assert(join_spec(parts.take(i), sep) =~= parts[0] + sep + join_spec(
            parts.drop_first().take(i - 1),
            sep,
        ));
    }
}

/// Joins the parts with `sep` between consecutive parts.
pub fn join_with(parts: &Vec<String>, sep: &str) -> (r: String)
    ensures
        r@ =~= join_spec(parts.deep_view(), sep@),
{
    let ghost pdv = parts.deep_view();
    let mut out = String::new();
    let mut i: usize = 0;
    proof {
        assert(pdv.take(0) =~= Seq::empty());
    }
    while i < parts.len()
        invariant
            0 <= i <= parts@.len(),
            pdv == parts.deep_view(),
            pdv.len() == parts@.len(),
            out@ =~= join_spec(pdv.take(i as int), sep@),
        decreases parts@.len() - i,
    {
        if i > 0 {
            out.append(sep);
        }
        out.append(parts[i].as_str());
        proof {
            assert(pdv[i as int] == parts@[i as int]@);
            if i == 0 {
                assert(pdv.take(1) =~= seq![pdv[0]]);
            } else {
                lemma_join_snoc(pdv, sep@, i as int);
            }
        }
        i = i + 1;
    }
    proof {
        assert(pdv.take(pdv.len() as int) =~= pdv);
    }
    out
}

/// Tests whether `s` starts with `p`.
pub fn starts_with(s: &str, p: &str) -> (r: bool)
    ensures
        r == has_prefix(s@, p@),
{
    let ns = s.unicode_len();
    let np = p.unicode_len();
    if np > ns {
        return false;
    }
    let mut i: usize = 0;
    while i < np
        invariant
            0 <= i <= np == p@.len(),
            np <= ns == s@.len(),
            forall|k: int| 0 <= k < i ==> s@[k] == p@[k],
        decreases np - i,
    {
        if s.get_char(i) != p.get_char(i) {
            assert(!has_prefix(s@, p@)) by {
                assert(s@.subrange(0, p@.len() as int)[i as int] == s@[i as int]);
            }
            return false;
        }
        i = i + 1;
    }
    assert(s@.subrange(0, p@.len() as int) =~= p@);
    true
}

} // verus!
