use research_flow::runner::{step, ExecutionStatus, Session, StageEvent};
use research_flow::stages::StageId;

// Launches one concurrent unit per question where unit k sleeps longer the
// smaller k is, so completion order is the reverse of launch order; the
// gathered results must still follow the original question order.
#[test]
fn fan_out_results_follow_input_order_not_completion_order() {
    let n: usize = 4;
    let rt = tokio::runtime::Builder::new_multi_thread()
        .worker_threads(n)
        .enable_time()
        .build()
        .unwrap();
    let responses: Vec<Option<String>> = rt.block_on(async {
        let units = (0..n).map(|k| async move {
            let delay = ((n - k) as u64) * 40;
            tokio::time::sleep(std::time::Duration::from_millis(delay)).await;
            Some(format!("Title: T{}\nURL: http://u{}\nContent: c{}", k, k, k))
        });
        futures::future::join_all(units).await
    });

    let s = Session::new("sess-c".to_string(), "topic".to_string());
    let (s, status) = step(s, StageEvent::Response("q0\nq1\nq2\nq3".to_string()), 1);
    assert!(matches!(status, ExecutionStatus::Paused(StageId::Researcher)));
    let (s, status) = step(s, StageEvent::FanoutResponses(responses), 2);
    assert!(matches!(status, ExecutionStatus::Paused(StageId::Summarizer)));

    let ctx = s.context.research_context.as_ref().unwrap();
    assert_eq!(ctx.research_results.len(), n);
    for k in 0..n {
        assert_eq!(ctx.research_results[k].question, format!("q{}", k));
        assert_eq!(ctx.research_results[k].findings[0].title, format!("T{}", k));
    }
}
