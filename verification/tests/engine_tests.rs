use agenda::engine::{aggregate, expand_pairs, finish_run};
use agenda::model::{
    AgendaError, Bucket, IssueDecorator, Meeting, QueryKind, QueryResult, RelativeAge, Step,
    describe_age,
};
use agenda::reports::lang_planning;
use agenda::sort::sort_issues;

fn issue(number: u64, drag: Option<u8>, narrative: Option<&str>) -> IssueDecorator {
    IssueDecorator {
        number,
        title: format!("issue {}", number),
        html_url: format!("https://example.test/{}", number),
        repo_name: "rust-lang/rust".to_string(),
        labels: "T-compiler".to_string(),
        assignees: "nobody".to_string(),
        updated_at_hts: "about 3 days ago".to_string(),
        narrative: narrative.map(|s| s.to_string()),
        drag,
        fcp_details: None,
        meeting_details: None,
    }
}

fn list_result(name: &str, issues: Vec<IssueDecorator>) -> QueryResult {
    QueryResult { name: name.to_string(), kind: QueryKind::List, issues }
}

fn count_result(name: &str, n: usize) -> QueryResult {
    let mut issues = Vec::new();
    for i in 0..n {
        issues.push(issue(i as u64, None, None));
    }
    QueryResult { name: name.to_string(), kind: QueryKind::Count, issues }
}

fn numbers(b: &Bucket) -> Vec<u64> {
    match b {
        Bucket::Issues(v) => v.iter().map(|i| i.number).collect(),
        Bucket::Count(_) => panic!("expected a list bucket"),
    }
}

fn count_of(b: &Bucket) -> u64 {
    match b {
        Bucket::Count(c) => *c,
        Bucket::Issues(_) => panic!("expected a count bucket"),
    }
}

#[test]
fn sort_drag_dominates_narrative_ties() {
    // A(no drag, narrative), B(drag 5, none), C(none, none), D(drag 2, narrative),
    // arriving in merge order A, B, C, D: the sorted output is D, B, A, C.
    let a = issue(1, None, Some("context"));
    let b = issue(2, Some(5), None);
    let c = issue(3, None, None);
    let d = issue(4, Some(2), Some("notes"));
    let sorted = sort_issues(vec![a, b, c, d]);
    let order: Vec<u64> = sorted.iter().map(|i| i.number).collect();
    assert_eq!(order, vec![4, 2, 1, 3]);
}

#[test]
fn sort_is_idempotent_on_sorted_input() {
    let v = vec![
        issue(1, None, Some("x")),
        issue(2, Some(5), None),
        issue(3, None, None),
        issue(4, Some(2), Some("y")),
        issue(5, Some(2), None),
    ];
    let once = sort_issues(v);
    let expect: Vec<u64> = once.iter().map(|i| i.number).collect();
    let twice = sort_issues(once);
    let got: Vec<u64> = twice.iter().map(|i| i.number).collect();
    assert_eq!(got, expect);
}

#[test]
fn empty_report_context_has_only_fixed_keys() {
    let ctx = finish_run(
        "lang_agenda".to_string(),
        vec![],
        "2026-10-11".to_string(),
        Ok(vec![]),
    )
    .expect("an empty run succeeds");
    assert_eq!(ctx.buckets.len(), 0);
    assert_eq!(ctx.report_name, "lang_agenda");
    assert_eq!(ctx.current_date, "2026-10-11");
    assert!(ctx.meetings.is_empty());
}

#[test]
fn one_failed_fetch_fails_the_whole_run() {
    let outcomes = vec![
        Ok(list_result("nominated", vec![issue(1, None, None)])),
        Err(AgendaError::Fetch("rate limited".to_string())),
        Ok(list_result("in_fcp", vec![issue(2, None, None)])),
    ];
    let r = finish_run(
        "lang_agenda".to_string(),
        outcomes,
        "2026-10-11".to_string(),
        Ok(vec![]),
    );
    match r {
        Err(AgendaError::Fetch(msg)) => assert_eq!(msg, "rate limited"),
        _ => panic!("the run must fail with the fetch error"),
    }
}

#[test]
fn meetings_failure_is_tolerated() {
    let outcomes = vec![Ok(count_result("issues_of_note_p_high", 3))];
    let ctx = finish_run(
        "prioritization_agenda".to_string(),
        outcomes,
        "2026-10-11".to_string(),
        Err("calendar unreachable".to_string()),
    )
    .expect("a meetings failure must not fail the run");
    assert!(ctx.meetings.is_empty());
    assert_eq!(ctx.buckets.len(), 1);
    assert_eq!(count_of(&ctx.buckets[0].1), 3);
}

#[test]
fn meetings_are_passed_through_on_success() {
    let meeting = Meeting {
        title: "compiler triage".to_string(),
        url: "https://example.test/meet".to_string(),
        date: "2026-10-14".to_string(),
    };
    let ctx = finish_run(
        "prioritization_agenda".to_string(),
        vec![],
        "2026-10-11".to_string(),
        Ok(vec![meeting]),
    )
    .expect("run succeeds");
    assert_eq!(ctx.meetings.len(), 1);
    assert_eq!(ctx.meetings[0].title, "compiler triage");
}

#[test]
fn list_buckets_accumulate_across_tuples_and_sort() {
    let outcomes = vec![
        Ok(list_result("in_fcp", vec![issue(1, None, None), issue(2, Some(7), None)])),
        Ok(list_result("in_fcp", vec![issue(3, Some(1), None)])),
    ];
    let buckets = aggregate(outcomes).expect("run succeeds");
    assert_eq!(buckets.len(), 1);
    assert_eq!(buckets[0].0, "in_fcp");
    assert_eq!(numbers(&buckets[0].1), vec![3, 2, 1]);
}

#[test]
fn count_buckets_sum_their_contributions() {
    let outcomes = vec![
        Ok(count_result("issues_of_note_p_high", 2)),
        Ok(count_result("issues_of_note_p_high", 5)),
    ];
    let buckets = aggregate(outcomes).expect("run succeeds");
    assert_eq!(buckets.len(), 1);
    assert_eq!(count_of(&buckets[0].1), 7);
}

#[test]
fn count_accumulation_is_order_independent() {
    let forward = vec![
        Ok(count_result("c", 2)),
        Ok(count_result("c", 5)),
        Ok(count_result("c", 11)),
    ];
    let backward = vec![
        Ok(count_result("c", 11)),
        Ok(count_result("c", 5)),
        Ok(count_result("c", 2)),
    ];
    let b1 = aggregate(forward).expect("run succeeds");
    let b2 = aggregate(backward).expect("run succeeds");
    assert_eq!(count_of(&b1[0].1), 18);
    assert_eq!(count_of(&b2[0].1), 18);
}

#[test]
fn distinct_names_fill_distinct_buckets_in_first_seen_order() {
    let outcomes = vec![
        Ok(list_result("nominated", vec![issue(1, None, None)])),
        Ok(count_result("p_high", 4)),
        Ok(list_result("nominated", vec![issue(2, None, None)])),
    ];
    let buckets = aggregate(outcomes).expect("run succeeds");
    assert_eq!(buckets.len(), 2);
    assert_eq!(buckets[0].0, "nominated");
    assert_eq!(numbers(&buckets[0].1), vec![1, 2]);
    assert_eq!(buckets[1].0, "p_high");
    assert_eq!(count_of(&buckets[1].1), 4);
}

#[test]
fn expand_enumerates_every_pair_in_declaration_order() {
    let step: Step = lang_planning();
    let pairs = expand_pairs(&step);
    assert_eq!(pairs, vec![(0, 0, 0), (0, 0, 1), (0, 0, 2), (1, 0, 0)]);
}

#[test]
fn expand_of_empty_report_is_empty() {
    let step = Step { name: "lang_design_doc".to_string(), actions: vec![] };
    assert!(expand_pairs(&step).is_empty());
}

#[test]
fn age_is_described_in_days_then_months() {
    assert!(matches!(describe_age(60), RelativeAge::AboutDaysAgo(60)));
    assert!(matches!(describe_age(61), RelativeAge::MonthsAgo(2)));
    assert!(matches!(describe_age(200), RelativeAge::MonthsAgo(6)));
    assert!(matches!(describe_age(-3), RelativeAge::AboutDaysAgo(-3)));
}
