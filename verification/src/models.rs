//! The data carried through one research session: the request and response
//! exchanged with the caller, the per-session research context, and the
//! evidence records produced by the research stage.

use vstd::prelude::*;

verus! {

/// A request to research one topic.
pub struct ResearchRequest {
    pub topic: String,
}

/// A single extracted evidence record.
///
/// A well-formed finding has a non-empty title and a non-empty url; the
/// parser only constructs such findings.
pub struct Finding {
    pub title: String,
    pub url: String,
    pub content: String,
}

/// The ghost image of a [`Finding`]: its fields as character sequences.
#[verifier::ext_equal]
pub ghost struct FindingView {
    pub title: Seq<char>,
    pub url: Seq<char>,
    pub content: Seq<char>,
}

impl FindingView {
    /// A finding is only constructed when both title and url are non-empty.
    pub open spec fn wf(self) -> bool {
        self.title.len() > 0 && self.url.len() > 0
    }
}

impl View for Finding {
    type V = FindingView;

    open spec fn view(&self) -> FindingView {
        FindingView { title: self.title@, url: self.url@, content: self.content@ }
    }
}

impl DeepView for Finding {
    type V = FindingView;

    open spec fn deep_view(&self) -> FindingView {
        self.view()
    }
}

/// The findings gathered for one research question.
pub struct ResearchResult {
    pub question: String,
    pub findings: Vec<Finding>,
}

/// The ghost image of a [`ResearchResult`].
#[verifier::ext_equal]
pub ghost struct ResultView {
    pub question: Seq<char>,
    pub findings: Seq<FindingView>,
}

impl View for ResearchResult {
    type V = ResultView;

    open spec fn view(&self) -> ResultView {
        ResultView { question: self.question@, findings: self.findings.deep_view() }
    }
}

impl DeepView for ResearchResult {
    type V = ResultView;

    open spec fn deep_view(&self) -> ResultView {
        self.view()
    }
}

/// The domain payload of one session: written to by each stage in turn.
///
/// The topic is set once at session creation; questions, research results,
/// summary and report are each written once by the stage of the same name.
pub struct ResearchContext {
    pub topic: String,
    pub questions: Vec<String>,
    pub research_results: Vec<ResearchResult>,
    pub summary: String,
    pub report: String,
}

/// The ghost image of a [`ResearchContext`].
#[verifier::ext_equal]
pub ghost struct ContextView {
    pub topic: Seq<char>,
    pub questions: Seq<Seq<char>>,
    pub research_results: Seq<ResultView>,
    pub summary: Seq<char>,
    pub report: Seq<char>,
}

impl View for ResearchContext {
    type V = ContextView;

    open spec fn view(&self) -> ContextView {
        ContextView {
            topic: self.topic@,
            questions: self.questions.deep_view(),
            research_results: self.research_results.deep_view(),
            summary: self.summary@,
            report: self.report@,
        }
    }
}

impl ResearchContext {
    /// The context stored when a session is created: the topic, with every
    /// later field still empty.
    pub fn initial(topic: String) -> (r: ResearchContext)
        ensures
            r@ == (ContextView {
                topic: topic@,
                questions: Seq::empty(),
                research_results: Seq::empty(),
                summary: Seq::empty(),
                report: Seq::empty(),
            }),
    {
        let r = ResearchContext {
            topic,
            questions: Vec::new(),
            research_results: Vec::new(),
            summary: String::new(),
            report: String::new(),
        };
        proof {
            assert(r.questions.deep_view() =~= Seq::<Seq<char>>::empty());
            assert(r.research_results.deep_view() =~= Seq::<ResultView>::empty());
            assert(r@ =~= (ContextView {
                topic: r.topic@,
                questions: Seq::empty(),
                research_results: Seq::empty(),
                summary: Seq::empty(),
                report: Seq::empty(),
            }));
        }
        r
    }
}

/// What the caller receives after a completed run.
pub struct ResearchResponse {
    pub session_id: String,
    pub topic: String,
    pub questions: Vec<String>,
    pub summary: String,
    pub report: String,
    pub total_time_ms: u64,
    /// Per-stage wall-clock durations, keyed by stage name; the keys are
    /// distinct because each stage of the chain executes at most once.
    pub task_times: Vec<(String, u64)>,
}

/// The body sent to the search provider for one query.
pub struct TavilySearchRequest {
    pub query: String,
    pub max_results: i32,
    pub search_depth: String,
    pub include_raw_content: bool,
}

impl TavilySearchRequest {
    /// The fixed request shape used by the search tool: five results,
    /// advanced depth, raw content included.
    pub fn for_query(query: String) -> (r: TavilySearchRequest)
        ensures
            r.query@ == query@,
            r.max_results == 5,
            r.search_depth@ == "advanced"@,
            r.include_raw_content,
    {
        TavilySearchRequest {
            query,
            max_results: 5,
            search_depth: "advanced".to_owned(),
            include_raw_content: true,
        }
    }
}

} // verus!
