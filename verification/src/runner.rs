//! The execution runner: a session walks the fixed stage chain one stage
//! per invocation.
//!
//! The caller performs each stage's provider call (the only part of the
//! pipeline this crate does not compute itself), hands the outcome back as
//! a [`StageEvent`], and [`step`] applies it: it updates the context,
//! records the stage's elapsed time, advances the session along the
//! chain's edge, and reports whether to keep polling. The whole transition
//! is pinned down by [`step_post`].

use vstd::prelude::*;

use crate::format::{findings_text_spec, format_results_spec};
use crate::models::{ContextView, ResearchContext, ResearchResponse};
use crate::stages::{
    extract_questions, extractor_prompt_spec, gather_spec, reporter_prompt_spec,
    research_prompt_spec, stage_name, stage_outcome_spec, successor_spec,
    summarizer_prompt_spec, QuestionExtractorTask, ReporterTask, ResearcherTask, StageId,
    StageOutcome, SummarizerTask,
};

verus! {

/// The state of one session: at a stage of the chain, completed, or failed
/// at the stage it could not finish.
#[derive(Clone, Copy, PartialEq, Eq, Structural, Debug)]
pub enum SessionState {
    AtStage(StageId),
    Completed,
    Failed(StageId),
}

/// The per-session store: the domain payload under its well-known key,
/// and the per-stage durations, present from the start as an empty map.
pub struct ContextStore {
    /// The domain payload; absent only if the caller never stored one,
    /// which every stage reports as an error.
    pub research_context: Option<ResearchContext>,
    /// One entry per executed stage, in execution order, each with the
    /// stage's wall-clock duration in milliseconds. The list only grows.
    pub task_times: Vec<(StageId, u64)>,
}

/// The ghost image of a [`ContextStore`].
#[verifier::ext_equal]
pub ghost struct StoreView {
    pub research_context: Option<ContextView>,
    pub task_times: Seq<(StageId, u64)>,
}

impl View for ContextStore {
    type V = StoreView;

    open spec fn view(&self) -> StoreView {
        StoreView {
            research_context: match self.research_context {
                Some(c) => Some(c@),
                None => None,
            },
            task_times: self.task_times@,
        }
    }
}

/// One end-to-end pipeline run: its identifier, its position in the
/// chain, and its context store.
pub struct Session {
    pub id: String,
    pub state: SessionState,
    pub context: ContextStore,
}

/// The ghost image of a [`Session`].
#[verifier::ext_equal]
pub ghost struct SessionView {
    pub id: Seq<char>,
    pub state: SessionState,
    pub store: StoreView,
}

impl View for Session {
    type V = SessionView;

    open spec fn view(&self) -> SessionView {
        SessionView { id: self.id@, state: self.state, store: self.context@ }
    }
}

impl Session {
    /// A fresh session bound to the first stage of the chain, its store
    /// holding the initial context for the topic and no recorded times.
    pub fn new(id: String, topic: String) -> (r: Session)
        ensures
            r@.id == id@,
            r@.state == SessionState::AtStage(StageId::QuestionExtractor),
            r@.store.research_context == Some(ContextView {
                topic: topic@,
                questions: Seq::empty(),
                research_results: Seq::empty(),
                summary: Seq::empty(),
                report: Seq::empty(),
            }),
            r@.store.task_times =~= Seq::<(StageId, u64)>::empty(),
    {
        let context = ResearchContext::initial(topic);
        let r = Session {
            id,
            state: SessionState::AtStage(StageId::QuestionExtractor),
            context: ContextStore { research_context: Some(context), task_times: Vec::new() },
        };
        proof {
            assert(r@.store.task_times =~= Seq::<(StageId, u64)>::empty());
        }
        r
    }
}

/// Relies on `uuid::Uuid::new_v4` and its default hyphenated `Display`
/// form: a freshly generated version-4 UUID always renders as 36
/// characters. Nothing else is assumed of the random value.
#[verifier::external_body]
fn fresh_session_id() -> (r: String)
    ensures
        r@.len() == 36,
{
    uuid::Uuid::new_v4().to_string()
}

/// A fresh session with a newly generated unique identifier, bound to the
/// first stage of the chain.
pub fn new_session(topic: String) -> (r: Session)
    ensures
        r@.id.len() == 36,
        r@.state == SessionState::AtStage(StageId::QuestionExtractor),
        r@.store.research_context == Some(ContextView {
            topic: topic@,
            questions: Seq::empty(),
            research_results: Seq::empty(),
            summary: Seq::empty(),
            report: Seq::empty(),
        }),
        r@.store.task_times =~= Seq::<(StageId, u64)>::empty(),
{
    Session::new(fresh_session_id(), topic)
}

/// What the caller hands back to the runner after performing the current
/// stage's outside work.
pub enum StageEvent {
    /// The completion provider's text for a single-prompt stage.
    Response(String),
    /// A stage-level provider failure and its message.
    ProviderFailure(String),
    /// The research stage's fan-out outcomes, one per question in question
    /// order; a failed unit is `None`.
    FanoutResponses(Vec<Option<String>>),
}

/// The ghost image of a [`StageEvent`].
#[verifier::ext_equal]
pub ghost enum EventView {
    Response(Seq<char>),
    ProviderFailure(Seq<char>),
    FanoutResponses(Seq<Option<Seq<char>>>),
}

/// The ghost image of a stage event.
pub open spec fn event_view(e: StageEvent) -> EventView {
    match e {
        StageEvent::Response(t) => EventView::Response(t@),
        StageEvent::ProviderFailure(m) => EventView::ProviderFailure(m@),
        StageEvent::FanoutResponses(rs) => EventView::FanoutResponses(rs.deep_view()),
    }
}

/// What the runner reports to its caller after one invocation: keep
/// polling at the named stage, done, or failed with a message.
#[derive(Debug)]
pub enum ExecutionStatus {
    Paused(StageId),
    Completed,
    Error(String),
}

/// The event shape the current stage consumes: the research stage takes
/// fan-out outcomes, one per question; every other stage takes a single
/// response or a stage-level failure. A session without a stored context,
/// or in a terminal state, accepts anything and reports an error.
pub open spec fn event_fits(s: SessionView, ev: EventView) -> bool {
    match s.state {
        SessionState::AtStage(st) => match s.store.research_context {
            Some(c) => match st {
                StageId::Researcher => ev matches EventView::FanoutResponses(rs) && rs.len()
                    == c.questions.len(),
                _ => !(ev matches EventView::FanoutResponses(_)),
            },
            None => true,
        },
        _ => true,
    }
}

/// What a successful stage execution does to the domain payload.
pub open spec fn apply_stage_view(st: StageId, c: ContextView, ev: EventView) -> ContextView {
    match st {
        StageId::QuestionExtractor => match ev {
            EventView::Response(t) => ContextView {
                topic: c.topic,
                questions: extract_questions(t),
                research_results: c.research_results,
                summary: c.summary,
                report: c.report,
            },
            _ => c,
        },
        StageId::Researcher => match ev {
            EventView::FanoutResponses(rs) => ContextView {
                topic: c.topic,
                questions: c.questions,
                research_results: gather_spec(c.questions, rs),
                summary: c.summary,
                report: c.report,
            },
            _ => c,
        },
        StageId::Summarizer => match ev {
            EventView::Response(t) => ContextView {
                topic: c.topic,
                questions: c.questions,
                research_results: c.research_results,
                summary: t,
                report: c.report,
            },
            _ => c,
        },
        StageId::Reporter => match ev {
            EventView::Response(t) => ContextView {
                topic: c.topic,
                questions: c.questions,
                research_results: c.research_results,
                summary: c.summary,
                report: t,
            },
            _ => c,
        },
    }
}

/// The full transition relation of one runner invocation.
///
/// A terminal session is left untouched and reported as an error. A
/// session without a stored context fails at its stage, store untouched.
/// A stage-level provider failure fails at the stage, store untouched.
/// Otherwise the stage's result is applied to the payload, the stage's
/// duration is appended to the recorded times, and the session either
/// advances along its single edge (reported as paused there) or, after
/// the terminal reporter stage, completes.
pub open spec fn step_post(
    pre: SessionView,
    ev: EventView,
    ms: u64,
    post: SessionView,
    r: ExecutionStatus,
) -> bool {
    match pre.state {
        SessionState::Completed => post == pre && r is Error,
        SessionState::Failed(_) => post == pre && r is Error,
        SessionState::AtStage(st) => match pre.store.research_context {
            None => post == (SessionView {
                id: pre.id,
                state: SessionState::Failed(st),
                store: pre.store,
            }) && (r matches ExecutionStatus::Error(m) && m@ == "Research context not found"@),
            Some(c) => match ev {
                EventView::ProviderFailure(msg) => post == (SessionView {
                    id: pre.id,
                    state: SessionState::Failed(st),
                    store: pre.store,
                }) && (r matches ExecutionStatus::Error(m) && m@ == "Prompt error: "@ + msg),
                _ => {
                    let store2 = StoreView {
                        research_context: Some(apply_stage_view(st, c, ev)),
                        task_times: pre.store.task_times.push((st, ms)),
                    };
                    post.id == pre.id && post.store == store2 && match stage_outcome_spec(st) {
                        StageOutcome::ContinueAndExecute => match successor_spec(st) {
                            Some(n) => post.state == SessionState::AtStage(n) && (r matches
                                ExecutionStatus::Paused(p) && p == n),
                            None => post.state == SessionState::Completed && r is Completed,
                        },
                        StageOutcome::Pause(n) => post.state == SessionState::AtStage(n) && (r
                            matches ExecutionStatus::Paused(p) && p == n),
                        StageOutcome::End => post.state == SessionState::Completed
                            && r is Completed,
                    }
                },
            },
        },
    }
}

/// Runs the session's current stage against the provider outcome the
/// caller gathered for it, and reports what to do next. One invocation
/// executes exactly one stage; a terminal session is never mutated.
pub fn step(session: Session, event: StageEvent, elapsed_ms: u64) -> (res: (
    Session,
    ExecutionStatus,
))
    requires
        event_fits(session@, event_view(event)),
    ensures
        step_post(session@, event_view(event), elapsed_ms, res.0@, res.1),
{
    let ghost pre = session@;
    let ghost evv = event_view(event);
    let Session { id, state, context } = session;
    match state {
        SessionState::Completed => {
            let out = Session { id, state, context };
            proof {
                assert(out@ =~= pre);
            }
            (out, ExecutionStatus::Error("Session is in a terminal state".to_owned()))
        },
        SessionState::Failed(f) => {
            let out = Session { id, state: SessionState::Failed(f), context };
            proof {
                assert(out@ =~= pre);
            }
            (out, ExecutionStatus::Error("Session is in a terminal state".to_owned()))
        },
        SessionState::AtStage(st) => {
            let ContextStore { research_context, task_times } = context;
            match research_context {
                None => {
                    let out = Session {
                        id,
                        state: SessionState::Failed(st),
                        context: ContextStore { research_context: None, task_times },
                    };
                    proof {
                        assert(out@.store =~= pre.store);
                    }
                    (out, ExecutionStatus::Error("Research context not found".to_owned()))
                },
                Some(ctx) => {
                    match event {
                        StageEvent::ProviderFailure(msg) => {
                            let mut m = String::new();
                            m.append("Prompt error: ");
                            m.append(msg.as_str());
                            let out = Session {
                                id,
                                state: SessionState::Failed(st),
                                context: ContextStore {
                                    research_context: Some(ctx),
                                    task_times,
                                },
                            };
                            proof {
                                assert(out@.store =~= pre.store);
                            }
                            (out, ExecutionStatus::Error(m))
                        },
                        StageEvent::Response(text) => {
                            proof {
                                assert(evv == EventView::Response(text@));
                            }
                            let ghost c0 = ctx@;
                            let mut ctx = ctx;
                            match st {
                                StageId::QuestionExtractor => {
                                    QuestionExtractorTask.apply(&mut ctx, text.as_str());
                                },
                                StageId::Summarizer => {
                                    SummarizerTask.apply(&mut ctx, text);
                                },
                                StageId::Reporter => {
                                    ReporterTask.apply(&mut ctx, text);
                                },
                                StageId::Researcher => {
                                    proof {
                                        assert(false);
                                    }
                                },
                            }
                            proof {
                                assert(ctx@ =~= apply_stage_view(st, c0, evv));
                            }
                            let mut times = task_times;
                            times.push((st, elapsed_ms));
                            advance(id, st, ctx, times, Ghost(pre), Ghost(evv), Ghost(elapsed_ms))
                        },
                        StageEvent::FanoutResponses(rs) => {
                            proof {
                                assert(evv == EventView::FanoutResponses(rs.deep_view()));
                            }
                            let ghost c0 = ctx@;
                            let mut ctx = ctx;
                            match st {
                                StageId::Researcher => {
                                    ResearcherTask.apply(&mut ctx, &rs);
                                },
                                _ => {
                                    proof {
                                        assert(false);
                                    }
                                },
                            }
                            proof {
                                assert(ctx@ =~= apply_stage_view(st, c0, evv));
                            }
                            let mut times = task_times;
                            times.push((st, elapsed_ms));
                            advance(id, st, ctx, times, Ghost(pre), Ghost(evv), Ghost(elapsed_ms))
                        },
                    }
                },
            }
        },
    }
}

/// Rebuilds the session after a successful stage execution: advance along
/// the stage's edge, or complete after the terminal stage.
fn advance(
    id: String,
    st: StageId,
    ctx: ResearchContext,
    times: Vec<(StageId, u64)>,
    Ghost(pre): Ghost<SessionView>,
    Ghost(evv): Ghost<EventView>,
    Ghost(ms): Ghost<u64>,
) -> (res: (Session, ExecutionStatus))
    requires
        pre.state == SessionState::AtStage(st),
        !(evv is ProviderFailure),
        id@ == pre.id,
        (pre.store.research_context matches Some(c) && ctx@ == apply_stage_view(st, c, evv)),
        times@ == pre.store.task_times.push((st, ms)),
    ensures
        step_post(pre, evv, ms, res.0@, res.1),
{
    let outcome = match st {
        StageId::QuestionExtractor => QuestionExtractorTask.next_action(),
        StageId::Researcher => ResearcherTask.next_action(),
        StageId::Summarizer => SummarizerTask.next_action(),
        StageId::Reporter => ReporterTask.next_action(),
    };
    let target = match outcome {
        StageOutcome::ContinueAndExecute => st.successor(),
        StageOutcome::Pause(n) => Some(n),
        StageOutcome::End => None,
    };
    match target {
        Some(n) => {
            let out = Session {
                id,
                state: SessionState::AtStage(n),
                context: ContextStore { research_context: Some(ctx), task_times: times },
            };
            proof {
                match pre.store.research_context {
                    Some(c) => {
                        assert(out@.store =~= (StoreView {
                            research_context: Some(apply_stage_view(st, c, evv)),
                            task_times: pre.store.task_times.push((st, ms)),
                        }));
                    },
                    None => {},
                }
            }
            (out, ExecutionStatus::Paused(n))
        },
        None => {
            let out = Session {
                id,
                state: SessionState::Completed,
                context: ContextStore { research_context: Some(ctx), task_times: times },
            };
            proof {
                match pre.store.research_context {
                    Some(c) => {
                        assert(out@.store =~= (StoreView {
                            research_context: Some(apply_stage_view(st, c, evv)),
                            task_times: pre.store.task_times.push((st, ms)),
                        }));
                    },
                    None => {},
                }
            }
            (out, ExecutionStatus::Completed)
        },
    }
}

/// What the caller must obtain from the provider for the current stage:
/// one prompt, or one prompt per question for the research fan-out.
pub enum StageRequest {
    Prompt(String),
    FanoutPrompts(Vec<String>),
}

/// The request carried by `r` is exactly what the session's current stage
/// asks of the provider.
pub open spec fn request_matches(s: SessionView, req: StageRequest) -> bool {
    s.state matches SessionState::AtStage(st) && s.store.research_context matches Some(c)
        && (match req {
        StageRequest::Prompt(p) => match st {
            StageId::QuestionExtractor => p@ == extractor_prompt_spec(c.topic),
            StageId::Summarizer => p@ == summarizer_prompt_spec(
                c.topic,
                findings_text_spec(c.research_results),
            ),
            StageId::Reporter => p@ == reporter_prompt_spec(
                c.topic,
                c.questions,
                c.summary,
                format_results_spec(c.research_results),
            ),
            StageId::Researcher => false,
        },
        StageRequest::FanoutPrompts(ps) => st == StageId::Researcher && ps.deep_view().len()
            == c.questions.len() && (forall|i: int|
            0 <= i < ps.deep_view().len() ==> ps.deep_view()[i] == research_prompt_spec(
                c.questions[i],
            )),
    })
}

/// Builds the provider request of the session's current stage: the stage
/// prompt, or one prompt per question for the research fan-out. Nothing
/// is requested for a terminal session or one without a stored context.
pub fn stage_request(session: &Session) -> (r: Option<StageRequest>)
    ensures
        r is Some <==> ((session@.state matches SessionState::AtStage(_))
            && session@.store.research_context is Some),
        (r matches Some(req) ==> request_matches(session@, req)),
{
    let st = match session.state {
        SessionState::AtStage(s) => s,
        _ => {
            return None;
        },
    };
    match &session.context.research_context {
        None => None,
        Some(ctx) => {
            let req = match st {
                StageId::QuestionExtractor => StageRequest::Prompt(
                    QuestionExtractorTask.prompt(ctx),
                ),
                StageId::Researcher => StageRequest::FanoutPrompts(ResearcherTask.prompts(ctx)),
                StageId::Summarizer => StageRequest::Prompt(SummarizerTask.prompt(ctx)),
                StageId::Reporter => StageRequest::Prompt(ReporterTask.prompt(ctx)),
            };
            Some(req)
        },
    }
}

/// Assembles the caller-facing response from a session, or nothing when
/// the session has no stored context. The task-time names are the stage
/// names, in execution order, with the recorded durations.
pub fn build_response(session: &Session, total_time_ms: u64) -> (r: Option<ResearchResponse>)
    ensures
        r is Some <==> session@.store.research_context is Some,
        r matches Some(resp) ==> (session@.store.research_context matches Some(c)
            && resp.session_id@ == session@.id && resp.topic@ == c.topic
            && resp.questions.deep_view() == c.questions && resp.summary@ == c.summary
            && resp.report@ == c.report && resp.total_time_ms == total_time_ms
            && resp.task_times@.len() == session@.store.task_times.len() && (forall|i: int|
            0 <= i < resp.task_times@.len() ==> (#[trigger] resp.task_times@[i]).0@ == stage_name(
                session@.store.task_times[i].0,
            ) && resp.task_times@[i].1 == session@.store.task_times[i].1)),
{
    match &session.context.research_context {
        None => None,
        Some(ctx) => {
            let mut questions: Vec<String> = Vec::new();
            let mut i: usize = 0;
            while i < ctx.questions.len()
                invariant
                    0 <= i <= ctx.questions@.len(),
                    questions.deep_view().len() == i as int,
                    forall|k: int|
                        0 <= k < i ==> questions.deep_view()[k] == ctx.questions.deep_view()[k],
                decreases ctx.questions@.len() - i,
            {
                let ghost before = questions.deep_view();
                let q = ctx.questions[i].clone();
                questions.push(q);
                proof {
                    assert(questions.deep_view() =~= before.push(q@));
                    assert(q@ == ctx.questions@[i as int]@);
                }
                i = i + 1;
            }
            proof {
                assert(questions.deep_view() =~= ctx.questions.deep_view());
            }
            let mut task_times: Vec<(String, u64)> = Vec::new();
            let mut j: usize = 0;
            while j < session.context.task_times.len()
                invariant
                    0 <= j <= session.context.task_times@.len(),
                    task_times@.len() == j as int,
                    forall|k: int|
                        0 <= k < j ==> (#[trigger] task_times@[k]).0@ == stage_name(
                            session.context.task_times@[k].0,
                        ) && task_times@[k].1 == session.context.task_times@[k].1,
                decreases session.context.task_times@.len() - j,
            {
                let entry = session.context.task_times[j];
                task_times.push((entry.0.name().to_owned(), entry.1));
                j = j + 1;
            }
            Some(
                ResearchResponse {
                    session_id: session.id.clone(),
                    topic: ctx.topic.clone(),
                    questions,
                    summary: ctx.summary.clone(),
                    report: ctx.report.clone(),
                    total_time_ms,
                    task_times,
                },
            )
        },
    }
}

} // verus!
