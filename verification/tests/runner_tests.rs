use research_flow::runner::{
    build_response, new_session, stage_request, step, ContextStore, ExecutionStatus, Session,
    SessionState, StageEvent, StageRequest,
};
use research_flow::stages::{
    QuestionExtractorTask, ReporterTask, ResearcherTask, StageId, StageOutcome, SummarizerTask,
};

#[test]
fn stage_identifiers_are_stable() {
    assert_eq!(QuestionExtractorTask.id(), "question_extractor");
    assert_eq!(ResearcherTask.id(), "researcher");
    assert_eq!(SummarizerTask.id(), "summarizer");
    assert_eq!(ReporterTask.id(), "reporter");
    assert_eq!(StageId::QuestionExtractor.name(), "question_extractor");
    assert_eq!(StageId::Reporter.name(), "reporter");
}

#[test]
fn only_the_reporter_declares_the_end() {
    assert_eq!(
        QuestionExtractorTask.next_action(),
        StageOutcome::ContinueAndExecute
    );
    assert_eq!(ResearcherTask.next_action(), StageOutcome::ContinueAndExecute);
    assert_eq!(SummarizerTask.next_action(), StageOutcome::ContinueAndExecute);
    assert_eq!(ReporterTask.next_action(), StageOutcome::End);
}

#[test]
fn the_chain_is_a_single_path_to_the_reporter() {
    assert_eq!(
        StageId::QuestionExtractor.successor(),
        Some(StageId::Researcher)
    );
    assert_eq!(StageId::Researcher.successor(), Some(StageId::Summarizer));
    assert_eq!(StageId::Summarizer.successor(), Some(StageId::Reporter));
    assert_eq!(StageId::Reporter.successor(), None);
}

#[test]
fn new_sessions_get_a_36_character_identifier() {
    let s = new_session("energy".to_string());
    assert_eq!(s.id.chars().count(), 36);
    assert_eq!(s.state, SessionState::AtStage(StageId::QuestionExtractor));
    let ctx = s.context.research_context.as_ref().unwrap();
    assert_eq!(ctx.topic, "energy");
    assert!(ctx.questions.is_empty());
}

#[test]
fn full_pipeline_scenario() {
    let s = Session::new("sess-1".to_string(), "renewable energy".to_string());

    // Question extraction: the prompt names the topic; the response lines
    // become the questions.
    match stage_request(&s) {
        Some(StageRequest::Prompt(p)) => assert!(p.contains("renewable energy")),
        _ => panic!("expected a single prompt for the extractor"),
    }
    let (s, status) = step(s, StageEvent::Response("q1\nq2\nq3\nq4".to_string()), 5);
    assert!(matches!(status, ExecutionStatus::Paused(StageId::Researcher)));
    {
        let ctx = s.context.research_context.as_ref().unwrap();
        assert_eq!(ctx.questions, vec!["q1", "q2", "q3", "q4"]);
    }

    // Research fan-out: one prompt per question; one unit fails and its
    // question silently disappears, order otherwise kept.
    match stage_request(&s) {
        Some(StageRequest::FanoutPrompts(ps)) => {
            assert_eq!(ps.len(), 4);
            assert!(ps[0].contains("q1"));
            assert!(ps[3].contains("q4"));
        },
        _ => panic!("expected fan-out prompts for the researcher"),
    }
    let responses = vec![
        Some("Title: T1\nURL: http://u1\nContent: c1".to_string()),
        None,
        Some("Title: T3\nURL: http://u3\nContent: c3".to_string()),
        Some("Title: T4\nURL: http://u4\nContent: c4".to_string()),
    ];
    let (s, status) = step(s, StageEvent::FanoutResponses(responses), 7);
    assert!(matches!(status, ExecutionStatus::Paused(StageId::Summarizer)));
    {
        let ctx = s.context.research_context.as_ref().unwrap();
        assert_eq!(ctx.research_results.len(), 3);
        assert_eq!(ctx.research_results[0].question, "q1");
        assert_eq!(ctx.research_results[1].question, "q3");
        assert_eq!(ctx.research_results[2].question, "q4");
        assert_eq!(ctx.research_results[0].findings[0].title, "T1");
    }

    // Summarizing and reporting each append one timing entry.
    let (s, status) = step(s, StageEvent::Response("the summary".to_string()), 11);
    assert!(matches!(status, ExecutionStatus::Paused(StageId::Reporter)));
    let (s, status) = step(s, StageEvent::Response("# Report".to_string()), 13);
    assert!(matches!(status, ExecutionStatus::Completed));
    assert_eq!(s.state, SessionState::Completed);

    assert_eq!(s.context.task_times.len(), 4);
    assert_eq!(s.context.task_times[0], (StageId::QuestionExtractor, 5));
    assert_eq!(s.context.task_times[1], (StageId::Researcher, 7));
    assert_eq!(s.context.task_times[2], (StageId::Summarizer, 11));
    assert_eq!(s.context.task_times[3], (StageId::Reporter, 13));

    let total = 5 + 7 + 11 + 13 + 2;
    let resp = build_response(&s, total).unwrap();
    assert_eq!(resp.session_id, "sess-1");
    assert_eq!(resp.topic, "renewable energy");
    assert_eq!(resp.questions, vec!["q1", "q2", "q3", "q4"]);
    assert_eq!(resp.summary, "the summary");
    assert!(!resp.report.is_empty());
    assert_eq!(resp.report, "# Report");
    let names: Vec<&str> = resp.task_times.iter().map(|e| e.0.as_str()).collect();
    assert_eq!(
        names,
        vec!["question_extractor", "researcher", "summarizer", "reporter"]
    );
    let stage_sum: u64 = resp.task_times.iter().map(|e| e.1).sum();
    assert_eq!(stage_sum, 36);
    assert!(resp.total_time_ms >= stage_sum);
}

#[test]
fn extractor_trims_lines_and_drops_blank_ones() {
    let s = Session::new("sess-6".to_string(), "topic".to_string());
    let (s, status) = step(
        s,
        StageEvent::Response("  q1 \r\n\n q2\n   \n".to_string()),
        1,
    );
    assert!(matches!(status, ExecutionStatus::Paused(StageId::Researcher)));
    let ctx = s.context.research_context.as_ref().unwrap();
    assert_eq!(ctx.questions, vec!["q1", "q2"]);
}

#[test]
fn stepping_a_completed_session_changes_nothing() {
    let s = Session::new("sess-2".to_string(), "topic".to_string());
    let (s, _) = step(s, StageEvent::Response("q1\nq2".to_string()), 1);
    let (s, _) = step(s, StageEvent::FanoutResponses(vec![None, None]), 1);
    let (s, _) = step(s, StageEvent::Response("sum".to_string()), 1);
    let (s, _) = step(s, StageEvent::Response("rep".to_string()), 1);
    assert_eq!(s.state, SessionState::Completed);

    let report_before = s.context.research_context.as_ref().unwrap().report.clone();
    let times_before = s.context.task_times.clone();
    let (s, status) = step(s, StageEvent::Response("again".to_string()), 99);
    assert!(matches!(status, ExecutionStatus::Error(_)));
    assert_eq!(s.state, SessionState::Completed);
    let ctx = s.context.research_context.as_ref().unwrap();
    assert_eq!(ctx.report, report_before);
    assert_eq!(s.context.task_times, times_before);
}

#[test]
fn provider_failure_faults_the_session_and_stays_faulted() {
    let s = Session::new("sess-3".to_string(), "topic".to_string());
    let (s, status) = step(s, StageEvent::ProviderFailure("boom".to_string()), 2);
    match status {
        ExecutionStatus::Error(m) => assert_eq!(m, "Prompt error: boom"),
        _ => panic!("expected an error status"),
    }
    assert_eq!(s.state, SessionState::Failed(StageId::QuestionExtractor));
    assert!(s.context.task_times.is_empty());

    let questions_before = s.context.research_context.as_ref().unwrap().questions.clone();
    let (s, status) = step(s, StageEvent::Response("late".to_string()), 3);
    assert!(matches!(status, ExecutionStatus::Error(_)));
    assert_eq!(s.state, SessionState::Failed(StageId::QuestionExtractor));
    assert_eq!(
        s.context.research_context.as_ref().unwrap().questions,
        questions_before
    );
}

#[test]
fn missing_context_is_reported_and_faults_the_stage() {
    let s = Session {
        id: "sess-4".to_string(),
        state: SessionState::AtStage(StageId::Summarizer),
        context: ContextStore { research_context: None, task_times: Vec::new() },
    };
    let (s, status) = step(s, StageEvent::Response("text".to_string()), 1);
    match status {
        ExecutionStatus::Error(m) => assert_eq!(m, "Research context not found"),
        _ => panic!("expected an error status"),
    }
    assert_eq!(s.state, SessionState::Failed(StageId::Summarizer));
    assert!(s.context.task_times.is_empty());
    assert!(build_response(&s, 1).is_none());
}

#[test]
fn terminal_session_requests_nothing() {
    let s = Session::new("sess-5".to_string(), "topic".to_string());
    let (s, _) = step(s, StageEvent::ProviderFailure("x".to_string()), 1);
    assert!(stage_request(&s).is_none());
}
