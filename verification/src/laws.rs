//! The global guarantees of the pipeline, stated and proved over the
//! runner's transition relation and the stages' specifications.

use vstd::prelude::*;

use crate::models::ResultView;
use crate::runner::{event_fits, step_post, EventView, ExecutionStatus, SessionState, SessionView};
use crate::stages::{gather_spec, StageId};

verus! {

/// `a` appears within `b` in order, possibly with gaps.
pub open spec fn is_subsequence(a: Seq<Seq<char>>, b: Seq<Seq<char>>) -> bool
    decreases b.len(),
{
    if a.len() == 0 {
        true
    } else if b.len() == 0 {
        false
    } else {
        (a[0] == b[0] && is_subsequence(a.drop_first(), b.drop_first())) || is_subsequence(
            a,
            b.drop_first(),
        )
    }
}

/// The questions of a sequence of research results, in order.
pub open spec fn questions_of(rs: Seq<ResultView>) -> Seq<Seq<char>> {
    rs.map_values(|r: ResultView| r.question)
}

/// The research stage never yields more results than questions: failed
/// fan-out units only remove entries, never add them.
pub proof fn lemma_research_results_bounded(qs: Seq<Seq<char>>, rs: Seq<Option<Seq<char>>>)
    ensures
        gather_spec(qs, rs).len() <= qs.len(),
    decreases qs.len(),
{
    if qs.len() == 0 || rs.len() == 0 {
    } else {
        lemma_research_results_bounded(qs.drop_first(), rs.drop_first());
    }
}

/// The questions of the gathered results form a subsequence of the input
/// questions: successes keep question order, failures are only omitted.
pub proof fn lemma_research_results_ordered(qs: Seq<Seq<char>>, rs: Seq<Option<Seq<char>>>)
    ensures
        is_subsequence(questions_of(gather_spec(qs, rs)), qs),
    decreases qs.len(),
{
    let g = gather_spec(qs, rs);
    if qs.len() == 0 || rs.len() == 0 {
        assert(questions_of(g).len() == 0);
    } else {
        lemma_research_results_ordered(qs.drop_first(), rs.drop_first());
        let rest = gather_spec(qs.drop_first(), rs.drop_first());
        match rs[0] {
            Some(t) => {
                assert(questions_of(g) =~= seq![qs[0]] + questions_of(rest));
                assert(questions_of(g).drop_first() =~= questions_of(rest));
                assert(questions_of(g)[0] == qs[0]);
            },
            None => {
                assert(questions_of(g) == questions_of(rest));
                if questions_of(rest).len() > 0 {
                    assert(is_subsequence(questions_of(rest), qs));
                }
            },
        }
    }
}

/// After a successful research step, the stored results are at most one
/// per question and their questions keep the original question order.
pub proof fn lemma_researcher_step_masks_failures(
    pre: SessionView,
    ev: EventView,
    ms: u64,
    post: SessionView,
    r: ExecutionStatus,
)
    requires
        pre.state == SessionState::AtStage(StageId::Researcher),
        event_fits(pre, ev),
        step_post(pre, ev, ms, post, r),
        !(r is Error),
    ensures
        post.store.research_context matches Some(c2) && c2.research_results.len()
            <= c2.questions.len() && is_subsequence(questions_of(c2.research_results), c2.questions),
{
    match pre.store.research_context {
        None => {
            assert(false);
        },
        Some(c) => {
            match ev {
                EventView::FanoutResponses(rs) => {
                    lemma_research_results_bounded(c.questions, rs);
                    lemma_research_results_ordered(c.questions, rs);
                },
                _ => {
                    assert(false);
                },
            }
        },
    }
}

/// A step on a session already in a terminal completed or failed state
/// mutates nothing — in particular not the research context — and only
/// reports an error.
pub proof fn lemma_terminal_step_is_inert(
    pre: SessionView,
    ev: EventView,
    ms: u64,
    post: SessionView,
    r: ExecutionStatus,
)
    requires
        pre.state == SessionState::Completed || pre.state matches SessionState::Failed(_),
        step_post(pre, ev, ms, post, r),
    ensures
        post == pre,
        post.store.research_context == pre.store.research_context,
        r is Error,
{
}

/// Any run carried from the first stage to completion ends with at most
/// one research result per question, their questions a subsequence of the
/// stored questions in the original order.
pub proof fn lemma_completed_run_masks_failures(
    s0: SessionView,
    e1: EventView,
    m1: u64,
    s1: SessionView,
    r1: ExecutionStatus,
    e2: EventView,
    m2: u64,
    s2: SessionView,
    r2: ExecutionStatus,
    e3: EventView,
    m3: u64,
    s3: SessionView,
    r3: ExecutionStatus,
    e4: EventView,
    m4: u64,
    s4: SessionView,
    r4: ExecutionStatus,
)
    requires
        s0.state == SessionState::AtStage(StageId::QuestionExtractor),
        step_post(s0, e1, m1, s1, r1),
        !(r1 is Error),
        event_fits(s1, e2),
        step_post(s1, e2, m2, s2, r2),
        !(r2 is Error),
        step_post(s2, e3, m3, s3, r3),
        !(r3 is Error),
        step_post(s3, e4, m4, s4, r4),
        !(r4 is Error),
    ensures
        s4.state == SessionState::Completed,
        s4.store.research_context matches Some(c) && c.research_results.len()
            <= c.questions.len() && is_subsequence(questions_of(c.research_results), c.questions),
{
    lemma_researcher_step_masks_failures(s1, e2, m2, s2, r2);
}

/// The recorded stage durations never shrink: whatever a step does, the
/// entries already recorded stay in place, and at most one entry is
/// appended.
pub proof fn lemma_times_only_grow(
    pre: SessionView,
    ev: EventView,
    ms: u64,
    post: SessionView,
    r: ExecutionStatus,
)
    requires
        step_post(pre, ev, ms, post, r),
    ensures
        post.store.task_times.len() >= pre.store.task_times.len(),
        post.store.task_times.take(pre.store.task_times.len() as int) =~= pre.store.task_times,
{
    let t = pre.store.task_times;
    assert(t.take(t.len() as int) =~= t);
    match pre.state {
        SessionState::AtStage(st) => match pre.store.research_context {
            Some(c) => match ev {
                EventView::ProviderFailure(_) => {
                },
                _ => {
                    assert(t.push((st, ms)).take(t.len() as int) =~= t);
                },
            },
            None => {
            },
        },
        _ => {
        },
    }
}

/// The recorded stage durations as a map from stage to milliseconds;
/// later entries win, though a forward-only run never records a stage
/// twice.
pub open spec fn times_map(ts: Seq<(StageId, u64)>) -> Map<StageId, u64>
    decreases ts.len(),
{
    if ts.len() == 0 {
        Map::empty()
    } else {
        times_map(ts.drop_last()).insert(ts.last().0, ts.last().1)
    }
}

/// A run carried from the first stage through four non-failing steps
/// completes, records exactly one duration per executed stage — so the
/// key count grows by one at each step and never shrinks — and ends with
/// the four stage names as exactly the keys of the timing map, each
/// mapped to the duration handed to its step.
pub proof fn lemma_completed_run_records_all_times(
    s0: SessionView,
    e1: EventView,
    m1: u64,
    s1: SessionView,
    r1: ExecutionStatus,
    e2: EventView,
    m2: u64,
    s2: SessionView,
    r2: ExecutionStatus,
    e3: EventView,
    m3: u64,
    s3: SessionView,
    r3: ExecutionStatus,
    e4: EventView,
    m4: u64,
    s4: SessionView,
    r4: ExecutionStatus,
)
    requires
        s0.state == SessionState::AtStage(StageId::QuestionExtractor),
        s0.store.task_times.len() == 0,
        step_post(s0, e1, m1, s1, r1),
        !(r1 is Error),
        step_post(s1, e2, m2, s2, r2),
        !(r2 is Error),
        step_post(s2, e3, m3, s3, r3),
        !(r3 is Error),
        step_post(s3, e4, m4, s4, r4),
        !(r4 is Error),
    ensures
        s1.state == SessionState::AtStage(StageId::Researcher),
        s2.state == SessionState::AtStage(StageId::Summarizer),
        s3.state == SessionState::AtStage(StageId::Reporter),
        s4.state == SessionState::Completed,
        s1.store.task_times.len() == 1,
        s2.store.task_times.len() == 2,
        s3.store.task_times.len() == 3,
        s4.store.task_times.len() == 4,
        times_map(s4.store.task_times).dom() =~= set![
            StageId::QuestionExtractor,
            StageId::Researcher,
            StageId::Summarizer,
            StageId::Reporter,
        ],
        times_map(s4.store.task_times)[StageId::QuestionExtractor] == m1,
        times_map(s4.store.task_times)[StageId::Researcher] == m2,
        times_map(s4.store.task_times)[StageId::Summarizer] == m3,
        times_map(s4.store.task_times)[StageId::Reporter] == m4,
{
    let t0 = s0.store.task_times;
    let t1 = s1.store.task_times;
    let t2 = s2.store.task_times;
    let t3 = s3.store.task_times;
    let t4 = s4.store.task_times;
    assert(t1 == t0.push((StageId::QuestionExtractor, m1)));
    assert(t2 == t1.push((StageId::Researcher, m2)));
    assert(t3 == t2.push((StageId::Summarizer, m3)));
    assert(t4 == t3.push((StageId::Reporter, m4)));
    assert(t4.drop_last() =~= t3);
    assert(t3.drop_last() =~= t2);
    assert(t2.drop_last() =~= t1);
    assert(t1.drop_last() =~= t0);
    assert(times_map(t0) =~= Map::<StageId, u64>::empty());
    assert(times_map(t1) =~= times_map(t0).insert(StageId::QuestionExtractor, m1));
    assert(times_map(t2) =~= times_map(t1).insert(StageId::Researcher, m2));
    assert(times_map(t3) =~= times_map(t2).insert(StageId::Summarizer, m3));
    assert(times_map(t4) =~= times_map(t3).insert(StageId::Reporter, m4));
    assert(times_map(t4).dom() =~= set![
        StageId::QuestionExtractor,
        StageId::Researcher,
        StageId::Summarizer,
        StageId::Reporter,
    ]);
}

} // verus!
