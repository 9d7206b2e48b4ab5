//! The four stages of the research chain and what each one does to the
//! session context: extracting questions, gathering research results,
//! summarizing, and reporting.
//!
//! Each stage's provider call happens outside this crate; the stage types
//! here build the exact prompt for that call and apply the response to the
//! context, both with full contracts.

use vstd::prelude::*;

use crate::format::{
    findings_text, findings_text_spec, format_research_results, format_results_spec,
};
use crate::models::{ResearchContext, ResearchResult, ResultView};
use crate::parser::{parse_search_results, parse_spec};
use crate::text::{join_spec, join_with, split_on, split_sub, trim, trim_spec};

verus! {

/// The name of one stage of the chain; the states of a live session.
#[derive(Clone, Copy, PartialEq, Eq, Structural, Debug)]
pub enum StageId {
    QuestionExtractor,
    Researcher,
    Summarizer,
    Reporter,
}

/// What a stage declares should happen after it returns: move on through
/// the graph's edge, pause at a named stage, or end the run.
#[derive(Clone, Copy, PartialEq, Eq, Structural, Debug)]
pub enum StageOutcome {
    ContinueAndExecute,
    Pause(StageId),
    End,
}

/// The stage name used for graph wiring and timing keys.
pub open spec fn stage_name(s: StageId) -> Seq<char> {
    match s {
        StageId::QuestionExtractor => "question_extractor"@,
        StageId::Researcher => "researcher"@,
        StageId::Summarizer => "summarizer"@,
        StageId::Reporter => "reporter"@,
    }
}

/// The single outgoing edge of each stage in the fixed chain; the reporter
/// is the terminal stage and has none.
pub open spec fn successor_spec(s: StageId) -> Option<StageId> {
    match s {
        StageId::QuestionExtractor => Some(StageId::Researcher),
        StageId::Researcher => Some(StageId::Summarizer),
        StageId::Summarizer => Some(StageId::Reporter),
        StageId::Reporter => None,
    }
}

impl StageId {
    /// The stage's stable name.
    pub fn name(&self) -> (r: &str)
        ensures
            r@ == stage_name(*self),
    {
        match self {
            StageId::QuestionExtractor => "question_extractor",
            StageId::Researcher => "researcher",
            StageId::Summarizer => "summarizer",
            StageId::Reporter => "reporter",
        }
    }

    /// The next stage along the chain's edge, if this stage has one.
    pub fn successor(&self) -> (r: Option<StageId>)
        ensures
            r == successor_spec(*self),
    {
        match self {
            StageId::QuestionExtractor => Some(StageId::Researcher),
            StageId::Researcher => Some(StageId::Summarizer),
            StageId::Summarizer => Some(StageId::Reporter),
            StageId::Reporter => None,
        }
    }
}

/// What each stage declares once it has run: every stage of the chain
/// moves on through its edge, except the terminal reporter, which ends
/// the run.
pub open spec fn stage_outcome_spec(st: StageId) -> StageOutcome {
    if st == StageId::Reporter {
        StageOutcome::End
    } else {
        StageOutcome::ContinueAndExecute
    }
}

/// Every non-terminal stage of the chain has exactly one outgoing edge,
/// and only the terminal reporter stage has none: the graph is well formed
/// by construction.
pub proof fn lemma_chain_well_formed()
    ensures
        forall|s: StageId| s != StageId::Reporter ==> successor_spec(s) is Some,
        successor_spec(StageId::Reporter) is None,
{
}

/// The questions read from a provider response: one per line, trimmed,
/// blank lines discarded.
pub open spec fn clean_lines(ls: Seq<Seq<char>>) -> Seq<Seq<char>>
    decreases ls.len(),
{
    if ls.len() == 0 {
        Seq::empty()
    } else {
        let rest = clean_lines(ls.drop_first());
        if trim_spec(ls[0]).len() > 0 {
            seq![trim_spec(ls[0])] + rest
        } else {
            rest
        }
    }
}

proof fn lemma_clean_concat(a: Seq<Seq<char>>, b: Seq<Seq<char>>)
    ensures
        clean_lines(a + b) =~= clean_lines(a) + clean_lines(b),
    decreases a.len(),
{
    if a.len() == 0 {
        assert(a + b =~= b);
        assert(clean_lines(a) =~= Seq::empty());
    } else {
        lemma_clean_concat(a.drop_first(), b);
        assert((a + b).drop_first() =~= a.drop_first() + b);
        assert((a + b)[0] == a[0]);
    }
}

/// What the question-extraction stage stores: the response split on
/// newlines, lines trimmed, blank lines discarded, order kept.
pub open spec fn extract_questions(resp: Seq<char>) -> Seq<Seq<char>> {
    clean_lines(split_sub(resp, seq!['\n']))
}

/// What the research stage stores, given the per-question responses in
/// question order: one result per answered question, in that same order;
/// questions whose unit failed are silently omitted.
pub open spec fn gather_spec(qs: Seq<Seq<char>>, rs: Seq<Option<Seq<char>>>) -> Seq<ResultView>
    decreases qs.len(),
{
    if qs.len() == 0 || rs.len() == 0 {
        Seq::empty()
    } else {
        let rest = gather_spec(qs.drop_first(), rs.drop_first());
        match rs[0] {
            Some(t) => seq![ResultView { question: qs[0], findings: parse_spec(t) }] + rest,
            None => rest,
        }
    }
}

proof fn lemma_gather_snoc(qs: Seq<Seq<char>>, rs: Seq<Option<Seq<char>>>, i: int)
    requires
        qs.len() == rs.len(),
        0 <= i < qs.len(),
    ensures
        gather_spec(qs.take(i + 1), rs.take(i + 1)) =~= gather_spec(qs.take(i), rs.take(i))
            + (match rs[i] {
            Some(t) => seq![ResultView { question: qs[i], findings: parse_spec(t) }],
            None => Seq::<ResultView>::empty(),
        }),
    decreases i,
{
    if i == 0 {
        assert(qs.take(0) =~= Seq::empty());
        assert(qs.take(1) =~= seq![qs[0]]);
        assert(rs.take(1) =~= seq![rs[0]]);
        assert(seq![qs[0]].drop_first() =~= Seq::<Seq<char>>::empty());
        assert(gather_spec(seq![qs[0]].drop_first(), seq![rs[0]].drop_first())
            =~= Seq::<ResultView>::empty());
    } else {
        lemma_gather_snoc(qs.drop_first(), rs.drop_first(), i - 1);
        assert(qs.take(i + 1).drop_first() =~= qs.drop_first().take(i));
        assert(rs.take(i + 1).drop_first() =~= rs.drop_first().take(i));
        assert(qs.take(i).drop_first() =~= qs.drop_first().take(i - 1));
        assert(rs.take(i).drop_first() =~= rs.drop_first().take(i - 1));
        assert(qs.take(i + 1)[0] == qs[0]);
        assert(rs.take(i + 1)[0] == rs[0]);
        assert(qs.take(i)[0] == qs[0]);
        assert(rs.take(i)[0] == rs[0]);
        assert(qs.drop_first()[i - 1] == qs[i]);
        assert(rs.drop_first()[i - 1] == rs[i]);
    }
}

/// The prompt sent by the question-extraction stage.
pub open spec fn extractor_prompt_spec(topic: Seq<char>) -> Seq<char> {
    "You are a research assistant. Generate 3-5 specific research questions about the following topic: \""@
        + topic
        + "\"\n\nRequirements:\n- Questions should be factual and answerable through web research\n- Questions should cover different aspects of the topic\n- Questions should be clear and well-defined\n- Format: Return only the questions, one per line, no numbering or bullets"@
}

/// The prompt sent for one research question by a fan-out unit.
pub open spec fn research_prompt_spec(question: Seq<char>) -> Seq<char> {
    "Search for information to answer this research question: \""@ + question
        + "\"\n\nUse the tavily_search tool to find relevant information. Search for specific, factual information that directly addresses the question."@
}

/// The prompt sent by the summarizing stage.
pub open spec fn summarizer_prompt_spec(topic: Seq<char>, findings: Seq<char>) -> Seq<char> {
    "You are a research assistant. Summarize the key findings from this research about \""@
        + topic + "\":\n\n"@ + findings
        + "\n\nRequirements:\n- Create a concise summary (3-5 paragraphs) of the most important findings\n- Focus on facts and insights that directly relate to the topic\n- Organize information logically\n- Use clear, professional language\n- Do not include URLs or citations in the summary"@
}

/// The prompt sent by the reporting stage.
pub open spec fn reporter_prompt_spec(
    topic: Seq<char>,
    questions: Seq<Seq<char>>,
    summary: Seq<char>,
    data: Seq<char>,
) -> Seq<char> {
    "You are a research assistant. Create a comprehensive research report about \""@ + topic
        + "\" based on the following information:\n\nResearch Questions:\n"@ + join_spec(
        questions,
        "\n- "@,
    ) + "\n\nSummary of Findings:\n"@ + summary + "\n\nRaw Research Data:\n"@ + data
        + "\n\nRequirements:\n- Create a well-structured markdown report\n- Include an executive summary\n- Organize findings by research question\n- Add a conclusion section\n- Include citations with URLs where appropriate\n- Use proper markdown formatting (headers, lists, etc.)\n- Make it professional and comprehensive"@
}

/// The stage that turns a topic into a list of research questions.
pub struct QuestionExtractorTask;

impl QuestionExtractorTask {
    /// The stage's stable identifier.
    pub fn id(&self) -> (r: &str)
        ensures
            r@ == stage_name(StageId::QuestionExtractor),
    {
        "question_extractor"
    }

    /// After extracting questions the runner moves on through the edge.
    pub fn next_action(&self) -> (r: StageOutcome)
        ensures
            r == stage_outcome_spec(StageId::QuestionExtractor),
    {
        StageOutcome::ContinueAndExecute
    }

    /// Builds the question-extraction prompt for the context's topic.
    pub fn prompt(&self, context: &ResearchContext) -> (r: String)
        ensures
            r@ =~= extractor_prompt_spec(context@.topic),
    {
        let mut s = String::new();
        s.append(
            "You are a research assistant. Generate 3-5 specific research questions about the following topic: \"",
        );
        s.append(context.topic.as_str());
        s.append(
            "\"\n\nRequirements:\n- Questions should be factual and answerable through web research\n- Questions should cover different aspects of the topic\n- Questions should be clear and well-defined\n- Format: Return only the questions, one per line, no numbering or bullets",
        );
        s
    }

    /// Stores the questions read from the provider's response: one per
    /// line, trimmed, blank lines discarded. Nothing else changes.
    pub fn apply(&self, context: &mut ResearchContext, response: &str)
        ensures
            final(context)@.topic == old(context)@.topic,
            final(context)@.questions =~= extract_questions(response@),
            final(context)@.research_results == old(context)@.research_results,
            final(context)@.summary == old(context)@.summary,
            final(context)@.report == old(context)@.report,
    {
        proof {
            reveal_strlit("\n");
            assert("\n"@ =~= seq!['\n']);
        }
        let lines = split_on(response, "\n");
        let ghost ldv = lines.deep_view();
        let mut qs: Vec<String> = Vec::new();
        let mut i: usize = 0;
        proof {
            assert(ldv.take(0) =~= Seq::empty());
            assert(qs.deep_view() =~= Seq::<Seq<char>>::empty());
        }
        while i < lines.len()
            invariant
                0 <= i <= lines@.len(),
                ldv == lines.deep_view(),
                ldv.len() == lines@.len(),
                qs.deep_view() =~= clean_lines(ldv.take(i as int)),
            decreases lines@.len() - i,
        {
            proof {
                let x = ldv[i as int];
                assert(ldv.take(i + 1) =~= ldv.take(i as int) + seq![x]);
                lemma_clean_concat(ldv.take(i as int), seq![x]);
                assert(seq![x].drop_first() =~= Seq::<Seq<char>>::empty());
                assert(clean_lines(Seq::<Seq<char>>::empty()) =~= Seq::<Seq<char>>::empty());
                assert(ldv[i as int] == lines@[i as int]@);
            }
            let t = trim(lines[i]);
            if t.unicode_len() > 0 {
                let ghost before = qs.deep_view();
                qs.push(t.to_owned());
                proof {
                    assert(qs.deep_view() =~= before.push(t@));
                    assert(clean_lines(seq![ldv[i as int]]) =~= seq![trim_spec(ldv[i as int])]);
                }
            } else {
                proof {
                    assert(clean_lines(seq![ldv[i as int]]) =~= Seq::<Seq<char>>::empty());
                }
            }
            i = i + 1;
        }
        proof {
            assert(ldv.take(ldv.len() as int) =~= ldv);
        }
        context.questions = qs;
    }
}

/// The stage that fans out one research unit per question and gathers the
/// successful results.
pub struct ResearcherTask;

impl ResearcherTask {
    /// The stage's stable identifier.
    pub fn id(&self) -> (r: &str)
        ensures
            r@ == stage_name(StageId::Researcher),
    {
        "researcher"
    }

    /// After gathering results the runner moves on through the edge.
    pub fn next_action(&self) -> (r: StageOutcome)
        ensures
            r == stage_outcome_spec(StageId::Researcher),
    {
        StageOutcome::ContinueAndExecute
    }

    /// Builds the research prompt for one question.
    pub fn question_prompt(&self, question: &str) -> (r: String)
        ensures
            r@ =~= research_prompt_spec(question@),
    {
        let mut s = String::new();
        s.append("Search for information to answer this research question: \"");
        s.append(question);
        s.append(
            "\"\n\nUse the tavily_search tool to find relevant information. Search for specific, factual information that directly addresses the question.",
        );
        s
    }

    /// Builds one research prompt per question of the context, in order.
    pub fn prompts(&self, context: &ResearchContext) -> (r: Vec<String>)
        ensures
            r.deep_view().len() == context@.questions.len(),
            forall|i: int|
                0 <= i < r.deep_view().len() ==> r.deep_view()[i] =~= research_prompt_spec(
                    context@.questions[i],
                ),
    {
        let mut out: Vec<String> = Vec::new();
        let mut i: usize = 0;
        while i < context.questions.len()
            invariant
                0 <= i <= context.questions@.len(),
                out.deep_view().len() == i as int,
                forall|k: int|
                    0 <= k < i ==> out.deep_view()[k] =~= research_prompt_spec(
                        context@.questions[k],
                    ),
            decreases context.questions@.len() - i,
        {
            let ghost before = out.deep_view();
            let p = self.question_prompt(context.questions[i].as_str());
            out.push(p);
            proof {
                assert(out.deep_view() =~= before.push(p@));
                assert(context@.questions[i as int] == context.questions@[i as int]@);
            }
            i = i + 1;
        }
        out
    }

    /// Stores the research results gathered from the per-question
    /// responses, given in question order, one entry per answered
    /// question; failed units are omitted. Nothing else changes.
    pub fn apply(&self, context: &mut ResearchContext, responses: &Vec<Option<String>>)
        requires
            responses.deep_view().len() == old(context)@.questions.len(),
        ensures
            final(context)@.topic == old(context)@.topic,
            final(context)@.questions == old(context)@.questions,
            final(context)@.research_results =~= gather_spec(
                old(context)@.questions,
                responses.deep_view(),
            ),
            final(context)@.summary == old(context)@.summary,
            final(context)@.report == old(context)@.report,
    {
        let ghost qdv = context@.questions;
        let ghost rdv = responses.deep_view();
        let mut results: Vec<ResearchResult> = Vec::new();
        let mut i: usize = 0;
        proof {
            assert(qdv.take(0) =~= Seq::empty());
            assert(rdv.take(0) =~= Seq::<Option<Seq<char>>>::empty());
            assert(gather_spec(qdv.take(0), rdv.take(0)) =~= Seq::<ResultView>::empty());
            assert(results.deep_view() =~= Seq::<ResultView>::empty());
        }
        while i < context.questions.len()
            invariant
                0 <= i <= context.questions@.len(),
                qdv == context@.questions,
                qdv.len() == context.questions@.len(),
                rdv == responses.deep_view(),
                rdv.len() == qdv.len(),
                results.deep_view() =~= gather_spec(qdv.take(i as int), rdv.take(i as int)),
            decreases context.questions@.len() - i,
        {
            proof {
                lemma_gather_snoc(qdv, rdv, i as int);
                assert(rdv[i as int] == responses@[i as int].deep_view());
                assert(qdv[i as int] == context.questions@[i as int]@);
            }
            match &responses[i] {
                Some(t) => {
                    let findings = parse_search_results(t.as_str());
                    let question = context.questions[i].clone();
                    let ghost before = results.deep_view();
                    let res = ResearchResult { question, findings };
                    proof {
                        assert(res@.question == qdv[i as int]);
                        assert(res@.findings =~= parse_spec(t@));
                    }
                    results.push(res);
                    proof {
                        assert(results.deep_view() =~= before.push(res@));
                    }
                },
                None => {},
            }
            i = i + 1;
        }
        proof {
            assert(qdv.take(qdv.len() as int) =~= qdv);
            assert(rdv.take(rdv.len() as int) =~= rdv);
        }
        context.research_results = results;
    }
}

/// The stage that condenses all findings into a summary.
pub struct SummarizerTask;

impl SummarizerTask {
    /// The stage's stable identifier.
    pub fn id(&self) -> (r: &str)
        ensures
            r@ == stage_name(StageId::Summarizer),
    {
        "summarizer"
    }

    /// After storing the summary the runner moves on through the edge.
    pub fn next_action(&self) -> (r: StageOutcome)
        ensures
            r == stage_outcome_spec(StageId::Summarizer),
    {
        StageOutcome::ContinueAndExecute
    }

    /// Builds the summarizing prompt: the topic together with the
    /// flattened findings list of every research result.
    pub fn prompt(&self, context: &ResearchContext) -> (r: String)
        ensures
            r@ =~= summarizer_prompt_spec(
                context@.topic,
                findings_text_spec(context@.research_results),
            ),
    {
        let flat = findings_text(&context.research_results);
        let mut s = String::new();
        s.append(
            "You are a research assistant. Summarize the key findings from this research about \"",
        );
        s.append(context.topic.as_str());
        s.append("\":\n\n");
        s.append(flat.as_str());
        s.append(
            "\n\nRequirements:\n- Create a concise summary (3-5 paragraphs) of the most important findings\n- Focus on facts and insights that directly relate to the topic\n- Organize information logically\n- Use clear, professional language\n- Do not include URLs or citations in the summary",
        );
        s
    }

    /// Stores the provider's summary. Nothing else changes.
    pub fn apply(&self, context: &mut ResearchContext, summary: String)
        ensures
            final(context)@.topic == old(context)@.topic,
            final(context)@.questions == old(context)@.questions,
            final(context)@.research_results == old(context)@.research_results,
            final(context)@.summary == summary@,
            final(context)@.report == old(context)@.report,
    {
        context.summary = summary;
    }
}

/// The terminal stage that renders the final report.
pub struct ReporterTask;

impl ReporterTask {
    /// The stage's stable identifier.
    pub fn id(&self) -> (r: &str)
        ensures
            r@ == stage_name(StageId::Reporter),
    {
        "reporter"
    }

    /// The reporter is the terminal stage: it always ends the run.
    pub fn next_action(&self) -> (r: StageOutcome)
        ensures
            r == stage_outcome_spec(StageId::Reporter),
    {
        StageOutcome::End
    }

    /// Builds the reporting prompt: topic, questions, summary, and the
    /// full research data.
    pub fn prompt(&self, context: &ResearchContext) -> (r: String)
        ensures
            r@ =~= reporter_prompt_spec(
                context@.topic,
                context@.questions,
                context@.summary,
                format_results_spec(context@.research_results),
            ),
    {
        let joined = join_with(&context.questions, "\n- ");
        let data = format_research_results(context);
        let mut s = String::new();
        s.append(
            "You are a research assistant. Create a comprehensive research report about \"",
        );
        s.append(context.topic.as_str());
        s.append("\" based on the following information:\n\nResearch Questions:\n");
        s.append(joined.as_str());
        s.append("\n\nSummary of Findings:\n");
        s.append(context.summary.as_str());
        s.append("\n\nRaw Research Data:\n");
        s.append(data.as_str());
        s.append(
            "\n\nRequirements:\n- Create a well-structured markdown report\n- Include an executive summary\n- Organize findings by research question\n- Add a conclusion section\n- Include citations with URLs where appropriate\n- Use proper markdown formatting (headers, lists, etc.)\n- Make it professional and comprehensive",
        );
        s
    }

    /// Stores the provider's report. Nothing else changes.
    pub fn apply(&self, context: &mut ResearchContext, report: String)
        ensures
            final(context)@.topic == old(context)@.topic,
            final(context)@.questions == old(context)@.questions,
            final(context)@.research_results == old(context)@.research_results,
            final(context)@.summary == old(context)@.summary,
            final(context)@.report == report@,
    {
        context.report = report;
    }
}

} // verus!
