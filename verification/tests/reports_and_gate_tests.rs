use agenda::gate::AdmissionGate;
use agenda::model::{DesignMeetingStatus, QueryKind, QuerySpec, StatusFilter, Step};
use agenda::reports::{
    async_design, async_planning, async_reading, async_triage, compiler_backlog_bonanza,
    council_triage, edition_triage, ite_design, ite_triage, lang, lang_design, lang_planning,
    prioritization, style_triage,
};

fn check_report(step: Step, name: &str, groups: usize) {
    assert_eq!(step.name, name);
    assert_eq!(step.actions.len(), groups);
}

#[test]
fn every_report_has_its_name_and_groups() {
    check_report(prioritization(), "prioritization_agenda", 5);
    check_report(lang(), "lang_agenda", 3);
    check_report(lang_planning(), "lang_planning_agenda", 2);
    check_report(lang_design(), "lang_design_doc", 0);
    check_report(style_triage(), "style_triage_agenda", 3);
    check_report(async_triage(), "async_triage_agenda", 2);
    check_report(async_planning(), "async_planning_agenda", 1);
    check_report(async_design(), "async_design_doc", 0);
    check_report(async_reading(), "async_reading_club", 0);
    check_report(ite_triage(), "ite_triage_agenda", 2);
    check_report(ite_design(), "ite_design_doc", 0);
    check_report(edition_triage(), "edition_triage_agenda", 3);
    check_report(council_triage(), "council_triage_agenda", 2);
    check_report(compiler_backlog_bonanza(), "compiler_backlog_bonanza", 1);
}

#[test]
fn prioritization_mixes_list_and_count_buckets() {
    let step = prioritization();
    let first = &step.actions[0];
    assert_eq!(first.repos, vec![("rust-lang".to_string(), "compiler-team".to_string())]);
    assert_eq!(first.queries[0].name, "mcp_new_not_seconded");
    assert!(matches!(first.queries[0].kind, QueryKind::List));
    let counts = &step.actions[3];
    assert_eq!(counts.queries[3].name, "issues_of_note_p_critical");
    assert!(matches!(counts.queries[3].kind, QueryKind::Count));
    match &counts.queries[3].query {
        QuerySpec::Labelled { filters, include_labels, exclude_labels } => {
            assert_eq!(filters, &vec![("state".to_string(), "open".to_string())]);
            assert_eq!(include_labels, &vec!["T-compiler".to_string(), "P-critical".to_string()]);
            assert!(exclude_labels.is_empty());
        },
        _ => panic!("a labelled query was expected"),
    }
}

#[test]
fn special_query_capabilities_are_kept() {
    let step = lang();
    match &step.actions[0].queries[2].query {
        QuerySpec::DesignMeetings { project_number, with_status } => {
            assert_eq!(*project_number, 31);
            assert!(matches!(with_status, DesignMeetingStatus::Scheduled));
        },
        _ => panic!("scheduled_meetings is a design meetings query"),
    }
    match &step.actions[0].queries[3].query {
        QuerySpec::ProjectBoard { project_number, with_status } => {
            assert_eq!(*project_number, 43);
            match with_status {
                StatusFilter::EqualsOrUnset(s) => assert_eq!(s, "Priority"),
                _ => panic!("the board filter keeps the Priority column"),
            }
        },
        _ => panic!("edition_priority_issues is a project board query"),
    }
    let prio = prioritization();
    let big = &prio.actions[3];
    let last = &big.queries[big.queries.len() - 1];
    assert_eq!(last.name, "top_unreviewed_prs");
    assert!(matches!(last.query, QuerySpec::LeastRecentlyReviewedPullRequests));
    let ite = ite_triage();
    match &ite.actions[0].queries[1].query {
        QuerySpec::ProjectBoard { project_number, with_status } => {
            assert_eq!(*project_number, 34);
            match with_status {
                StatusFilter::DiffersOrUnset(s) => assert_eq!(s, "Done"),
                _ => panic!("the board filter drops the Done column"),
            }
        },
        _ => panic!("project_board_issues is a project board query"),
    }
}

#[test]
fn in_flight_fetches_never_exceed_the_ceiling() {
    // more than five pending pairs under a ceiling of five
    let mut gate = AdmissionGate::new(5);
    let mut peak: usize = 0;
    let mut admitted: usize = 0;
    let pending: usize = 9;
    for _ in 0..pending {
        if gate.try_admit() {
            admitted += 1;
        }
        if gate.in_flight > peak {
            peak = gate.in_flight;
        }
    }
    assert_eq!(admitted, 5);
    assert_eq!(peak, 5);
    // one task finishes, one parked task is admitted in its place
    gate.finish();
    assert!(gate.try_admit());
    assert!(gate.in_flight <= 5);
    // drain
    for _ in 0..5 {
        gate.finish();
    }
    assert_eq!(gate.in_flight, 0);
}
