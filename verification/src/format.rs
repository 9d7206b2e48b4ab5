//! Verified rendering of research results into the flat text blocks that
//! the summarizing and reporting stages embed in their prompts.

use vstd::prelude::*;

use crate::models::{Finding, FindingView, ResearchContext, ResearchResult, ResultView};
use crate::text::{join_spec, lemma_join_snoc};

verus! {

/// One source line of the report data: `- title (url)` with the content
/// indented below.
pub open spec fn source_row(f: FindingView) -> Seq<char> {
    "- "@ + f.title + " ("@ + f.url + ")\n  "@ + f.content
}

/// One block of the report data: the question followed by its sources.
pub open spec fn source_block(r: ResultView) -> Seq<char> {
    "Question: "@ + r.question + "\nSources:\n"@ + join_spec(
        r.findings.map_values(|f: FindingView| source_row(f)),
        "\n"@,
    )
}

/// The raw research data embedded in the reporting prompt: one block per
/// research result, blank-line separated.
pub open spec fn format_results_spec(rs: Seq<ResultView>) -> Seq<char> {
    join_spec(rs.map_values(|r: ResultView| source_block(r)), "\n\n"@)
}

/// One findings line of the summary input: `- title (url): content`.
pub open spec fn finding_row(f: FindingView) -> Seq<char> {
    "- "@ + f.title + " ("@ + f.url + "): "@ + f.content
}

/// One block of the summary input: the question followed by its findings.
pub open spec fn finding_block(r: ResultView) -> Seq<char> {
    "Question: "@ + r.question + "\nFindings:\n"@ + join_spec(
        r.findings.map_values(|f: FindingView| finding_row(f)),
        "\n"@,
    )
}

/// The flattened findings list embedded in the summarizing prompt.
pub open spec fn findings_text_spec(rs: Seq<ResultView>) -> Seq<char> {
    join_spec(rs.map_values(|r: ResultView| finding_block(r)), "\n\n"@)
}

fn render_source_row(f: &Finding) -> (r: String)
    ensures
        r@ =~= source_row(f@),
{
    let mut s = String::new();
    s.append("- ");
    s.append(f.title.as_str());
    s.append(" (");
    s.append(f.url.as_str());
    s.append(")\n  ");
    s.append(f.content.as_str());
    s
}

fn render_finding_row(f: &Finding) -> (r: String)
    ensures
        r@ =~= finding_row(f@),
{
    let mut s = String::new();
    s.append("- ");
    s.append(f.title.as_str());
    s.append(" (");
    s.append(f.url.as_str());
    s.append("): ");
    s.append(f.content.as_str());
    s
}

fn render_source_block(res: &ResearchResult) -> (r: String)
    ensures
        r@ =~= source_block(res@),
{
    let ghost rows = res.findings.deep_view().map_values(|f: FindingView| source_row(f));
    let mut joined = String::new();
    let mut i: usize = 0;
    proof {
        assert(rows.take(0) =~= Seq::empty());
    }
    while i < res.findings.len()
        invariant
            0 <= i <= res.findings@.len(),
            rows == res.findings.deep_view().map_values(|f: FindingView| source_row(f)),
            rows.len() == res.findings@.len(),
            joined@ =~= join_spec(rows.take(i as int), "\n"@),
        decreases res.findings@.len() - i,
    {
        if i > 0 {
            joined.append("\n");
        }
        let row = render_source_row(&res.findings[i]);
        joined.append(row.as_str());
        proof {
            assert(rows[i as int] == source_row(res.findings@[i as int]@));
            if i == 0 {
                assert(rows.take(1) =~= seq![rows[0]]);
            } else {
                lemma_join_snoc(rows, "\n"@, i as int);
            }
        }
        i = i + 1;
    }
    proof {
        assert(rows.take(rows.len() as int) =~= rows);
    }
    let mut s = String::new();
    s.append("Question: ");
    s.append(res.question.as_str());
    s.append("\nSources:\n");
    s.append(joined.as_str());
    s
}

fn render_finding_block(res: &ResearchResult) -> (r: String)
    ensures
        r@ =~= finding_block(res@),
{
    let ghost rows = res.findings.deep_view().map_values(|f: FindingView| finding_row(f));
    let mut joined = String::new();
    let mut i: usize = 0;
    proof {
        assert(rows.take(0) =~= Seq::empty());
    }
    while i < res.findings.len()
        invariant
            0 <= i <= res.findings@.len(),
            rows == res.findings.deep_view().map_values(|f: FindingView| finding_row(f)),
            rows.len() == res.findings@.len(),
            joined@ =~= join_spec(rows.take(i as int), "\n"@),
        decreases res.findings@.len() - i,
    {
        if i > 0 {
            joined.append("\n");
        }
        let row = render_finding_row(&res.findings[i]);
        joined.append(row.as_str());
        proof {
            assert(rows[i as int] == finding_row(res.findings@[i as int]@));
            if i == 0 {
                assert(rows.take(1) =~= seq![rows[0]]);
            } else {
                lemma_join_snoc(rows, "\n"@, i as int);
            }
        }
        i = i + 1;
    }
    proof {
        assert(rows.take(rows.len() as int) =~= rows);
    }
    let mut s = String::new();
    s.append("Question: ");
    s.append(res.question.as_str());
    s.append("\nFindings:\n");
    s.append(joined.as_str());
    s
}

/// Renders the full research data of a context, one blank-line separated
/// block per result, each listing the question and its sources.
pub fn format_research_results(context: &ResearchContext) -> (r: String)
    ensures
        r@ =~= format_results_spec(context@.research_results),
{
    let ghost blocks = context.research_results.deep_view().map_values(
        |res: ResultView| source_block(res),
    );
    let mut out = String::new();
    let mut i: usize = 0;
    proof {
        assert(blocks.take(0) =~= Seq::empty());
    }
    while i < context.research_results.len()
        invariant
            0 <= i <= context.research_results@.len(),
            blocks == context.research_results.deep_view().map_values(
                |res: ResultView| source_block(res),
            ),
            blocks.len() == context.research_results@.len(),
            out@ =~= join_spec(blocks.take(i as int), "\n\n"@),
        decreases context.research_results@.len() - i,
    {
        if i > 0 {
            out.append("\n\n");
        }
        let block = render_source_block(&context.research_results[i]);
        out.append(block.as_str());
        proof {
            assert(blocks[i as int] == source_block(context.research_results@[i as int]@));
            if i == 0 {
                assert(blocks.take(1) =~= seq![blocks[0]]);
            } else {
                lemma_join_snoc(blocks, "\n\n"@, i as int);
            }
        }
        i = i + 1;
    }
    proof {
        assert(blocks.take(blocks.len() as int) =~= blocks);
    }
    out
}

/// Renders the flattened findings list that the summarizing stage embeds
/// in its prompt.
pub fn findings_text(results: &Vec<ResearchResult>) -> (r: String)
    ensures
        r@ =~= findings_text_spec(results.deep_view()),
{
    let ghost blocks = results.deep_view().map_values(|res: ResultView| finding_block(res));
    let mut out = String::new();
    let mut i: usize = 0;
    proof {
        assert(blocks.take(0) =~= Seq::empty());
    }
    while i < results.len()
        invariant
            0 <= i <= results@.len(),
            blocks == results.deep_view().map_values(|res: ResultView| finding_block(res)),
            blocks.len() == results@.len(),
            out@ =~= join_spec(blocks.take(i as int), "\n\n"@),
        decreases results@.len() - i,
    {
        if i > 0 {
            out.append("\n\n");
        }
        let block = render_finding_block(&results[i]);
        out.append(block.as_str());
        proof {
            assert(blocks[i as int] == finding_block(results@[i as int]@));
            if i == 0 {
                assert(blocks.take(1) =~= seq![blocks[0]]);
            } else {
                lemma_join_snoc(blocks, "\n\n"@, i as int);
            }
        }
        i = i + 1;
    }
    proof {
        assert(blocks.take(blocks.len() as int) =~= blocks);
    }
    out
}

} // verus!
