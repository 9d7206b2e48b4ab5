use research_flow::parser::parse_search_results;

#[test]
fn empty_input_yields_no_findings() {
    let findings = parse_search_results("");
    assert_eq!(findings.len(), 0);
}

#[test]
fn single_well_formed_segment_yields_one_finding() {
    let findings = parse_search_results("Title: A\nURL: http://x\nContent: c");
    assert_eq!(findings.len(), 1);
    assert_eq!(findings[0].title, "A");
    assert_eq!(findings[0].url, "http://x");
    assert_eq!(findings[0].content, "c");
}

#[test]
fn segment_missing_title_is_discarded() {
    let findings = parse_search_results("Alpha heading\nURL: http://x\nContent: c");
    assert_eq!(findings.len(), 0);
}

#[test]
fn segment_missing_url_is_discarded() {
    let findings = parse_search_results("Title: A\nsome note\nContent: c");
    assert_eq!(findings.len(), 0);
}

#[test]
fn at_most_three_findings_are_kept() {
    let mut blob = String::new();
    for k in 0..5 {
        if k > 0 {
            blob.push_str("\n---\n");
        }
        blob.push_str(&format!("Title: T{}\nURL: http://u{}\nContent: c{}", k, k, k));
    }
    let findings = parse_search_results(&blob);
    assert_eq!(findings.len(), 3);
    assert_eq!(findings[0].title, "T0");
    assert_eq!(findings[1].title, "T1");
    assert_eq!(findings[2].title, "T2");
}

#[test]
fn segment_with_fewer_than_three_lines_is_discarded() {
    let findings = parse_search_results("Title: A\nURL: http://x");
    assert_eq!(findings.len(), 0);
}

#[test]
fn missing_content_line_gives_empty_content() {
    let findings = parse_search_results("Title: A\nURL: http://x\nNote: unrelated");
    assert_eq!(findings.len(), 1);
    assert_eq!(findings[0].content, "");
}

#[test]
fn repeated_prefix_is_stripped() {
    let findings = parse_search_results("Title:Title: A\nURL: http://x\nContent: c");
    assert_eq!(findings.len(), 1);
    assert_eq!(findings[0].title, "A");
}

#[test]
fn carriage_returns_and_padding_are_tolerated() {
    let findings = parse_search_results("Title: A \r\nURL: http://x\r\nContent: hello world\r\n");
    assert_eq!(findings.len(), 1);
    assert_eq!(findings[0].title, "A");
    assert_eq!(findings[0].url, "http://x");
    assert_eq!(findings[0].content, "hello world");
}

#[test]
fn first_matching_line_wins() {
    let findings = parse_search_results("Title: A\nTitle: B\nURL: http://x\nContent: c");
    assert_eq!(findings.len(), 1);
    assert_eq!(findings[0].title, "A");
}

#[test]
fn blank_lines_do_not_count_toward_the_minimum() {
    let findings = parse_search_results("Title: A\n   \nURL: http://x\n");
    assert_eq!(findings.len(), 0);
}

#[test]
fn unrelated_surrounding_lines_are_ignored() {
    let blob = "noise before\nTitle: A\nURL: http://x\nContent: c\nnoise after";
    let findings = parse_search_results(blob);
    assert_eq!(findings.len(), 1);
    assert_eq!(findings[0].title, "A");
}

#[test]
fn mixed_good_and_bad_segments_keep_only_good_ones() {
    let blob = "Title: A\nURL: http://a\nContent: ca\n---\nbroken\n---\nTitle: B\nURL: http://b\nContent: cb";
    let findings = parse_search_results(blob);
    assert_eq!(findings.len(), 2);
    assert_eq!(findings[0].title, "A");
    assert_eq!(findings[1].title, "B");
}
