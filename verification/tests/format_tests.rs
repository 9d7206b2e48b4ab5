use research_flow::format::{findings_text, format_research_results};
use research_flow::models::{Finding, ResearchContext, ResearchResult, TavilySearchRequest};
use research_flow::parser::parse_search_results;
use research_flow::stages::{QuestionExtractorTask, ReporterTask, SummarizerTask};
use research_flow::tavily::{TavilyError, TavilySearch, TavilySearchArgs};
use research_flow::text::join_with;

fn sample_context() -> ResearchContext {
    ResearchContext {
        topic: "solar power".to_string(),
        questions: vec!["q1".to_string(), "q2".to_string()],
        research_results: vec![
            ResearchResult {
                question: "q1".to_string(),
                findings: vec![
                    Finding {
                        title: "T1".to_string(),
                        url: "http://u1".to_string(),
                        content: "c1".to_string(),
                    },
                    Finding {
                        title: "T2".to_string(),
                        url: "http://u2".to_string(),
                        content: "c2".to_string(),
                    },
                ],
            },
            ResearchResult {
                question: "q2".to_string(),
                findings: vec![Finding {
                    title: "T3".to_string(),
                    url: "http://u3".to_string(),
                    content: "c3".to_string(),
                }],
            },
        ],
        summary: "the summary".to_string(),
        report: String::new(),
    }
}

#[test]
fn research_results_render_as_question_and_source_blocks() {
    let ctx = sample_context();
    let expected = "Question: q1\nSources:\n- T1 (http://u1)\n  c1\n- T2 (http://u2)\n  c2\n\nQuestion: q2\nSources:\n- T3 (http://u3)\n  c3";
    assert_eq!(format_research_results(&ctx), expected);
}

#[test]
fn empty_results_render_as_an_empty_string() {
    let mut ctx = sample_context();
    ctx.research_results = vec![];
    assert_eq!(format_research_results(&ctx), "");
}

#[test]
fn findings_render_as_question_and_finding_blocks() {
    let ctx = sample_context();
    let expected = "Question: q1\nFindings:\n- T1 (http://u1): c1\n- T2 (http://u2): c2\n\nQuestion: q2\nFindings:\n- T3 (http://u3): c3";
    assert_eq!(findings_text(&ctx.research_results), expected);
}

#[test]
fn extractor_prompt_embeds_the_topic() {
    let ctx = sample_context();
    let p = QuestionExtractorTask.prompt(&ctx);
    let expected = format!(
        "You are a research assistant. Generate 3-5 specific research questions about the following topic: \"{}\"\n\nRequirements:\n- Questions should be factual and answerable through web research\n- Questions should cover different aspects of the topic\n- Questions should be clear and well-defined\n- Format: Return only the questions, one per line, no numbering or bullets",
        "solar power"
    );
    assert_eq!(p, expected);
}

#[test]
fn summarizer_prompt_embeds_topic_and_findings() {
    let ctx = sample_context();
    let p = SummarizerTask.prompt(&ctx);
    assert!(p.starts_with(
        "You are a research assistant. Summarize the key findings from this research about \"solar power\":\n\n"
    ));
    assert!(p.contains("- T1 (http://u1): c1"));
    assert!(p.ends_with("- Do not include URLs or citations in the summary"));
}

#[test]
fn reporter_prompt_embeds_questions_summary_and_data() {
    let ctx = sample_context();
    let p = ReporterTask.prompt(&ctx);
    assert!(p.contains("Research Questions:\nq1\n- q2\n\n"));
    assert!(p.contains("Summary of Findings:\nthe summary\n\n"));
    assert!(p.contains("Raw Research Data:\nQuestion: q1\nSources:\n- T1 (http://u1)\n  c1"));
    assert!(p.ends_with("- Make it professional and comprehensive"));
}

#[test]
fn join_with_separates_consecutive_parts() {
    let parts = vec!["a".to_string(), "b".to_string(), "c".to_string()];
    assert_eq!(join_with(&parts, "\n- "), "a\n- b\n- c");
    let empty: Vec<String> = vec![];
    assert_eq!(join_with(&empty, ", "), "");
    let one = vec!["only".to_string()];
    assert_eq!(join_with(&one, ", "), "only");
}

#[test]
fn search_output_round_trips_through_the_parser() {
    let results = vec![
        Finding {
            title: "T1".to_string(),
            url: "http://u1".to_string(),
            content: "c1".to_string(),
        },
        Finding {
            title: "T2".to_string(),
            url: "http://u2".to_string(),
            content: "c2".to_string(),
        },
    ];
    let text = TavilySearch.format_results(&results);
    assert_eq!(
        text,
        "Title: T1\nURL: http://u1\nContent: c1\n\n---\nTitle: T2\nURL: http://u2\nContent: c2\n"
    );
    let parsed = parse_search_results(&text);
    assert_eq!(parsed.len(), 2);
    assert_eq!(parsed[0].title, "T1");
    assert_eq!(parsed[0].url, "http://u1");
    assert_eq!(parsed[0].content, "c1");
    assert_eq!(parsed[1].title, "T2");
}

#[test]
fn search_output_of_five_results_parses_to_three_findings() {
    let mut results = Vec::new();
    for k in 0..5 {
        results.push(Finding {
            title: format!("T{}", k),
            url: format!("http://u{}", k),
            content: format!("c{}", k),
        });
    }
    let text = TavilySearch.format_results(&results);
    let parsed = parse_search_results(&text);
    assert_eq!(parsed.len(), 3);
    assert_eq!(parsed[2].title, "T2");
}

#[test]
fn tool_declaration_is_fixed() {
    assert_eq!(TavilySearch.name(), "tavily_search");
    assert_eq!(
        TavilySearch.description(),
        "Search the web for information using Tavily search engine"
    );
    assert_eq!(TavilySearch.query_parameter(), "query");
    let args = TavilySearchArgs { query: "geothermal".to_string() };
    assert_eq!(args.query, "geothermal");
}

#[test]
fn tavily_errors_describe_themselves() {
    let e = TavilyError { message: "request failed".to_string() };
    assert_eq!(e.describe(), "Tavily error: request failed");
}

#[test]
fn search_requests_use_the_fixed_shape() {
    let r = TavilySearchRequest::for_query("wind farms".to_string());
    assert_eq!(r.query, "wind farms");
    assert_eq!(r.max_results, 5);
    assert_eq!(r.search_depth, "advanced");
    assert!(r.include_raw_content);
}
