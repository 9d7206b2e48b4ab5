//! The tolerant result parser: recovers structured findings from free-form
//! provider text in which records are separated by a `---` delimiter and
//! fields sit on lines prefixed `Title:`, `URL:` and `Content:`.
//!
//! The parser never fails: malformed segments are discarded, and at most
//! three findings are kept, in the order they appear.

use vstd::prelude::*;

use crate::models::{Finding, FindingView};
use crate::text::{
    chomp_cr, drop_cr, has_prefix, is_blank, is_blank_str, split_on, split_sub, starts_with,
    strip_prefix_repeated, strip_prefix_reps, trim, trim_spec,
};

verus! {

/// The characters of the line prefix that introduces a title.
pub open spec fn title_prefix() -> Seq<char> {
    seq!['T', 'i', 't', 'l', 'e', ':']
}

/// The characters of the line prefix that introduces a url.
pub open spec fn url_prefix() -> Seq<char> {
    seq!['U', 'R', 'L', ':']
}

/// The characters of the line prefix that introduces the content field.
pub open spec fn content_prefix() -> Seq<char> {
    seq!['C', 'o', 'n', 't', 'e', 'n', 't', ':']
}

/// The characters of the record delimiter.
pub open spec fn record_delim() -> Seq<char> {
    seq!['-', '-', '-']
}

/// The lines of one segment: the segment split on newlines, each line with
/// a trailing carriage return removed.
pub open spec fn seg_lines(seg: Seq<char>) -> Seq<Seq<char>> {
    split_sub(seg, seq!['\n']).map_values(|l: Seq<char>| drop_cr(l))
}

/// How many of the given lines contain a non-whitespace character.
pub open spec fn count_nonblank(ls: Seq<Seq<char>>) -> int
    decreases ls.len(),
{
    if ls.len() == 0 {
        0
    } else {
        (if is_blank(ls[0]) {
            0int
        } else {
            1int
        }) + count_nonblank(ls.drop_first())
    }
}

/// The index of the first line starting with `p`, or `-1` if there is none.
pub open spec fn find_line(ls: Seq<Seq<char>>, p: Seq<char>) -> int
    decreases ls.len(),
{
    if ls.len() == 0 {
        -1
    } else if has_prefix(ls[0], p) {
        0
    } else {
        let r = find_line(ls.drop_first(), p);
        if r < 0 {
            -1
        } else {
            r + 1
        }
    }
}

/// The value carried by the first line starting with `p`: the line with the
/// prefix repeatedly stripped and surrounding whitespace removed, or the
/// empty sequence when no line starts with `p`.
pub open spec fn field_value(ls: Seq<Seq<char>>, p: Seq<char>) -> Seq<char> {
    let i = find_line(ls, p);
    if 0 <= i < ls.len() {
        trim_spec(strip_prefix_reps(ls[i], p))
    } else {
        Seq::empty()
    }
}

/// What one segment contributes: a finding when the segment has at least
/// three non-blank lines and carries a non-empty title and url, nothing
/// otherwise.
pub open spec fn parse_segment(seg: Seq<char>) -> Option<FindingView> {
    let ls = seg_lines(seg);
    if count_nonblank(ls) < 3 {
        None
    } else {
        let t = field_value(ls, title_prefix());
        let u = field_value(ls, url_prefix());
        let c = field_value(ls, content_prefix());
        if t.len() > 0 && u.len() > 0 {
            Some(FindingView { title: t, url: u, content: c })
        } else {
            None
        }
    }
}

/// The findings of all well-formed segments, in segment order.
pub open spec fn collect_findings(segs: Seq<Seq<char>>) -> Seq<FindingView>
    decreases segs.len(),
{
    if segs.len() == 0 {
        Seq::empty()
    } else {
        let rest = collect_findings(segs.drop_first());
        match parse_segment(segs[0]) {
            Some(f) => seq![f] + rest,
            None => rest,
        }
    }
}

/// The first `n` elements of `s`, or all of `s` when it is shorter.
pub open spec fn take_up_to(s: Seq<FindingView>, n: int) -> Seq<FindingView> {
    if s.len() <= n {
        s
    } else {
        s.take(n)
    }
}

/// What the parser returns for a whole blob: the findings of its segments,
/// capped at three.
pub open spec fn parse_spec(s: Seq<char>) -> Seq<FindingView> {
    take_up_to(collect_findings(split_sub(s, record_delim())), 3)
}

proof fn lemma_collect_concat(a: Seq<Seq<char>>, b: Seq<Seq<char>>)
    ensures
        collect_findings(a + b) =~= collect_findings(a) + collect_findings(b),
    decreases a.len(),
{
    if a.len() == 0 {
        assert(a + b =~= b);
        assert(collect_findings(a) =~= Seq::empty());
    } else {
        lemma_collect_concat(a.drop_first(), b);
        assert((a + b).drop_first() =~= a.drop_first() + b);
        assert((a + b)[0] == a[0]);
    }
}

/// Every collected finding has a non-empty title and url.
proof fn lemma_collect_wf(segs: Seq<Seq<char>>)
    ensures
        forall|j: int|
            0 <= j < collect_findings(segs).len() ==> (#[trigger] collect_findings(segs)[j]).wf(),
    decreases segs.len(),
{
    if segs.len() > 0 {
        lemma_collect_wf(segs.drop_first());
        let rest = collect_findings(segs.drop_first());
        match parse_segment(segs[0]) {
            Some(f) => {
                assert(f.wf());
                assert(collect_findings(segs) =~= seq![f] + rest);
                assert forall|j: int|
                    0 <= j < collect_findings(segs).len() implies (#[trigger] collect_findings(
                    segs,
                )[j]).wf() by {
                    if j > 0 {
                        assert(collect_findings(segs)[j] == rest[j - 1]);
                    }
                }
            },
            None => {
                assert(collect_findings(segs) == rest);
            },
        }
    }
}

proof fn lemma_find_line_props(ls: Seq<Seq<char>>, p: Seq<char>)
    ensures
        find_line(ls, p) == -1 ==> forall|i: int|
            0 <= i < ls.len() ==> !has_prefix(#[trigger] ls[i], p),
        find_line(ls, p) >= 0 ==> 0 <= find_line(ls, p) < ls.len() && has_prefix(
            ls[find_line(ls, p)],
            p,
        ),
        find_line(ls, p) >= 0 ==> forall|i: int|
            0 <= i < find_line(ls, p) ==> !has_prefix(#[trigger] ls[i], p),
    decreases ls.len(),
{
    if ls.len() > 0 {
        lemma_find_line_props(ls.drop_first(), p);
        assert(forall|i: int|
            1 <= i < ls.len() ==> #[trigger] ls[i] == ls.drop_first()[i - 1]);
    }
}

proof fn lemma_count_nonblank_snoc(ls: Seq<Seq<char>>, i: int)
    requires
        0 <= i < ls.len(),
    ensures
        count_nonblank(ls.take(i + 1)) == count_nonblank(ls.take(i)) + (if is_blank(ls[i]) {
            0int
        } else {
            1int
        }),
    decreases i,
{
    if i == 0 {
        assert(ls.take(1) =~= seq![ls[0]]);
        assert(ls.take(0) =~= Seq::empty());
        assert(seq![ls[0]].drop_first() =~= Seq::<Seq<char>>::empty());
    } else {
        lemma_count_nonblank_snoc(ls.drop_first(), i - 1);
        assert(ls.take(i + 1).drop_first() =~= ls.drop_first().take(i));
        assert(ls.take(i).drop_first() =~= ls.drop_first().take(i - 1));
        assert(ls.take(i + 1)[0] == ls[0]);
        assert(ls.take(i)[0] == ls[0]);
        assert(ls.drop_first()[i - 1] == ls[i]);
    }
}

/// Counts the lines that contain a non-whitespace character.
fn count_nonblank_lines(lines: &Vec<&str>) -> (r: usize)
    ensures
        r as int == count_nonblank(lines.deep_view()),
{
    let ghost dv = lines.deep_view();
    let mut c: usize = 0;
    let mut i: usize = 0;
    proof {
        assert(dv.take(0) =~= Seq::empty());
    }
    while i < lines.len()
        invariant
            0 <= i <= lines@.len(),
            dv == lines.deep_view(),
            dv.len() == lines@.len(),
            c <= i,
            c as int == count_nonblank(dv.take(i as int)),
        decreases lines@.len() - i,
    {
        proof {
            lemma_count_nonblank_snoc(dv, i as int);
            assert(dv[i as int] == lines@[i as int]@);
        }
        if !is_blank_str(lines[i]) {
            c = c + 1;
        }
        i = i + 1;
    }
    proof {
        assert(dv.take(dv.len() as int) =~= dv);
    }
    c
}

/// Returns the field value for prefix `p` among the given lines.
fn line_field<'a>(lines: &Vec<&'a str>, p: &str) -> (r: &'a str)
    requires
        p@.len() > 0,
    ensures
        r@ == field_value(lines.deep_view(), p@),
{
    let ghost dv = lines.deep_view();
    let mut i: usize = 0;
    while i < lines.len()
        invariant
            0 <= i <= lines@.len(),
            dv == lines.deep_view(),
            dv.len() == lines@.len(),
            p@.len() > 0,
            forall|k: int| 0 <= k < i ==> !has_prefix(#[trigger] dv[k], p@),
        decreases lines@.len() - i,
    {
        proof {
            assert(dv[i as int] == lines@[i as int]@);
        }
        if starts_with(lines[i], p) {
            let stripped = strip_prefix_repeated(lines[i], p);
            let r = trim(stripped);
            proof {
                lemma_find_line_props(dv, p@);
                let f = find_line(dv, p@);
                assert(f == i as int) by {
                    if f == -1 {
                        assert(!has_prefix(dv[i as int], p@));
                    } else if f < i as int {
                        assert(!has_prefix(dv[f], p@));
                    } else if f > i as int {
                        assert(!has_prefix(dv[i as int], p@));
                    }
                }
            }
            return r;
        }
        i = i + 1;
    }
    proof {
        lemma_find_line_props(dv, p@);
        let f = find_line(dv, p@);
        if f >= 0 {
            assert(!has_prefix(dv[f], p@));
        }
        reveal_strlit("");
        assert(""@ =~= Seq::<char>::empty());
    }
    ""
}

/// Splits a segment into lines, removing trailing carriage returns.
fn segment_lines<'a>(seg: &'a str) -> (r: Vec<&'a str>)
    ensures
        r.deep_view() =~= seg_lines(seg@),
{
    proof {
        reveal_strlit("\n");
        assert("\n"@ =~= seq!['\n']);
    }
    let raw = split_on(seg, "\n");
    let ghost rdv = raw.deep_view();
    let mut lines: Vec<&'a str> = Vec::new();
    let mut i: usize = 0;
    while i < raw.len()
        invariant
            0 <= i <= raw@.len(),
            rdv == raw.deep_view(),
            rdv.len() == raw@.len(),
            lines.deep_view().len() == i as int,
            forall|k: int| 0 <= k < i ==> lines.deep_view()[k] == drop_cr(#[trigger] rdv[k]),
        decreases raw@.len() - i,
    {
        let ghost before = lines.deep_view();
        let l = chomp_cr(raw[i]);
        proof {
            assert(rdv[i as int] == raw@[i as int]@);
        }
        lines.push(l);
        proof {
            assert(lines.deep_view() =~= before.push(l@));
        }
        i = i + 1;
    }
    proof {
        assert(lines.deep_view() =~= seg_lines(seg@));
    }
    lines
}

/// Parses one segment into a finding, or nothing when the segment is
/// malformed: fewer than three non-blank lines, or a missing title or url.
fn parse_one_segment(seg: &str) -> (r: Option<Finding>)
    ensures
        r is Some <==> parse_segment(seg@) is Some,
        r matches Some(f) ==> parse_segment(seg@) matches Some(fv) && f@ == fv,
{
    let lines = segment_lines(seg);
    let n = count_nonblank_lines(&lines);
    if n < 3 {
        return None;
    }
    proof {
        reveal_strlit("Title:");
        reveal_strlit("URL:");
        reveal_strlit("Content:");
        assert("Title:"@ =~= title_prefix());
        assert("URL:"@ =~= url_prefix());
        assert("Content:"@ =~= content_prefix());
    }
    let t = line_field(&lines, "Title:");
    let u = line_field(&lines, "URL:");
    let c = line_field(&lines, "Content:");
    if t.unicode_len() > 0 && u.unicode_len() > 0 {
        let f = Finding { title: t.to_owned(), url: u.to_owned(), content: c.to_owned() };
        Some(f)
    } else {
        None
    }
}

/// Recovers at most three findings from a free-text blob whose records are
/// separated by `---`.
///
/// A segment yields a finding only when it has at least three non-blank
/// lines and both its `Title:` and `URL:` values are non-empty; everything
/// else is discarded, so the worst case is an empty result, never a failure.
pub fn parse_search_results(response: &str) -> (r: Vec<Finding>)
    ensures
        r.deep_view() =~= parse_spec(response@),
        r@.len() <= 3,
        forall|i: int| 0 <= i < r@.len() ==> (#[trigger] r.deep_view()[i]).wf(),
{
    proof {
        reveal_strlit("---");
        assert("---"@ =~= record_delim());
    }
    let segs = split_on(response, "---");
    let ghost sdv = segs.deep_view();
    let mut out: Vec<Finding> = Vec::new();
    let mut idx: usize = 0;
    proof {
        assert(sdv.take(0) =~= Seq::empty());
        assert(out.deep_view() =~= Seq::<FindingView>::empty());
    }
    while idx < segs.len() && out.len() < 3
        invariant
            0 <= idx <= segs@.len(),
            sdv == segs.deep_view(),
            sdv.len() == segs@.len(),
            out@.len() <= 3,
            out.deep_view().len() == out@.len(),
            out.deep_view() =~= take_up_to(collect_findings(sdv.take(idx as int)), 3),
            out@.len() < 3 ==> collect_findings(sdv.take(idx as int)) =~= out.deep_view(),
        decreases segs@.len() - idx,
    {
        let ghost pre = sdv.take(idx as int);
        proof {
            assert(sdv.take(idx + 1) =~= pre + seq![sdv[idx as int]]);
            lemma_collect_concat(pre, seq![sdv[idx as int]]);
            assert(seq![sdv[idx as int]].drop_first() =~= Seq::<Seq<char>>::empty());
            assert(sdv[idx as int] == segs@[idx as int]@);
        }
        let parsed = parse_one_segment(segs[idx]);
        match parsed {
            Some(f) => {
                let ghost before = out.deep_view();
                out.push(f);
                proof {
                    let x = sdv[idx as int];
                    assert(seq![x].drop_first() =~= Seq::<Seq<char>>::empty());
                    assert(collect_findings(Seq::<Seq<char>>::empty())
                        =~= Seq::<FindingView>::empty());
                    assert(collect_findings(seq![x]) =~= seq![f@]);
                    assert(collect_findings(sdv.take(idx + 1)) =~= collect_findings(pre) + seq![
                        f@,
                    ]);
                    assert(out.deep_view() =~= before.push(f@));
                    assert(collect_findings(sdv.take(idx + 1)) =~= out.deep_view());
                }
            },
            None => {
                proof {
                    let x = sdv[idx as int];
                    assert(seq![x].drop_first() =~= Seq::<Seq<char>>::empty());
                    assert(collect_findings(Seq::<Seq<char>>::empty())
                        =~= Seq::<FindingView>::empty());
                    assert(collect_findings(seq![x]) =~= Seq::<FindingView>::empty());
                    assert(collect_findings(sdv.take(idx + 1)) =~= collect_findings(pre));
                }
            },
        }
        idx = idx + 1;
    }
    proof {
        if idx == segs@.len() {
            assert(sdv.take(idx as int) =~= sdv);
        } else {
            let pre = sdv.take(idx as int);
            assert(sdv =~= pre + sdv.skip(idx as int));
            lemma_collect_concat(pre, sdv.skip(idx as int));
            assert(collect_findings(pre).len() >= 3);
            assert(take_up_to(collect_findings(sdv), 3) =~= take_up_to(collect_findings(pre), 3));
        }
        lemma_collect_wf(sdv);
        assert forall|i: int| 0 <= i < out@.len() implies (#[trigger] out.deep_view()[i]).wf() by {
            assert(out.deep_view()[i] == take_up_to(collect_findings(sdv), 3)[i]);
            assert(take_up_to(collect_findings(sdv), 3)[i] == collect_findings(sdv)[i]);
        }
    }
    out
}

} // verus!
