//! The report definitions: for each agenda, which repositories are asked
//! which queries, and which bucket each answer feeds.  Each function
//! builds one report as plain data; the engine expands it into fetch
//! tasks and the host runs them.  Beside every builder stands its model,
//! a spec function over sequences of characters, and the builder's
//! contract says that the returned report equals that model: every
//! repository, bucket name, mode, filter and label is pinned.

use vstd::prelude::*;
use crate::model::{
    Step, StepV, Query, QueryV, QueryMap, QueryMapV, QueryKind, QuerySpec, QuerySpecV,
    DesignMeetingStatus, StatusFilter, StatusFilterV,
};

verus! {

/// The whole report, as the contract's model.
pub open spec fn prioritization_def() -> StepV {
    StepV {
        name: "prioritization_agenda"@,
        actions: seq![
            QueryV {
                repos: seq![("rust-lang"@, "compiler-team"@)],
                queries: seq![
                    QueryMapV {
                        name: "mcp_new_not_seconded"@,
                        kind: QueryKind::List,
                        query: QuerySpecV::Labelled {
                            filters: seq![("state"@, "open"@)],
                            include_labels: seq!["major-change"@, "to-announce"@],
                            exclude_labels: seq![
                                "proposed-final-comment-period"@,
                                "finished-final-comment-period"@,
                                "final-comment-period"@,
                                "major-change-accepted"@,
                                "t-libs"@,
                                "t-libs-api"@,
                            ],
                        },
                    },
                    QueryMapV {
                        name: "mcp_old_not_seconded"@,
                        kind: QueryKind::List,
                        query: QuerySpecV::Labelled {
                            filters: seq![("state"@, "open"@)],
                            include_labels: seq!["major-change"@],
                            exclude_labels: seq![
                                "to-announce"@,
                                "proposed-final-comment-period"@,
                                "finished-final-comment-period"@,
                                "final-comment-period"@,
                                "t-libs"@,
                                "t-libs-api"@,
                            ],
                        },
                    },
                    QueryMapV {
                        name: "in_pre_fcp"@,
                        kind: QueryKind::List,
                        query: QuerySpecV::Labelled {
                            filters: seq![("state"@, "open"@)],
                            include_labels: seq!["proposed-final-comment-period"@],
                            exclude_labels: seq!["t-libs"@, "t-libs-api"@],
                        },
                    },
                    QueryMapV {
                        name: "in_fcp"@,
                        kind: QueryKind::List,
                        query: QuerySpecV::Labelled {
                            filters: seq![("state"@, "open"@)],
                            include_labels: seq!["final-comment-period"@],
                            exclude_labels: seq!["t-libs"@, "t-libs-api"@],
                        },
                    },
                    QueryMapV {
                        name: "mcp_accepted"@,
                        kind: QueryKind::List,
                        query: QuerySpecV::Labelled {
                            filters: seq![("state"@, "all"@)],
                            include_labels: seq!["major-change-accepted"@, "to-announce"@],
                            exclude_labels: seq!["t-libs"@, "t-libs-api"@],
                        },
                    },
                    QueryMapV {
                        name: "fcp_finished"@,
                        kind: QueryKind::List,
                        query: QuerySpecV::Labelled {
                            filters: seq![("state"@, "all"@)],
                            include_labels: seq![
                                "finished-final-comment-period"@,
                                "disposition-merge"@,
                                "to-announce"@,
                            ],
                            exclude_labels: seq!["t-libs"@, "t-libs-api"@],
                        },
                    },
                ],
            },
            QueryV {
                repos: seq![("rust-lang"@, "rust"@)],
                queries: seq![
                    QueryMapV {
                        name: "in_pre_fcp"@,
                        kind: QueryKind::List,
                        query: QuerySpecV::Labelled {
                            filters: seq![("state"@, "open"@)],
                            include_labels: seq!["proposed-final-comment-period"@, "T-compiler"@],
                            exclude_labels: seq!["t-libs"@, "t-libs-api"@],
                        },
                    },
                    QueryMapV {
                        name: "in_fcp"@,
                        kind: QueryKind::List,
                        query: QuerySpecV::Labelled {
                            filters: seq![("state"@, "open"@)],
                            include_labels: seq!["final-comment-period"@, "T-compiler"@],
                            exclude_labels: seq!["t-libs"@, "t-libs-api"@],
                        },
                    },
                    QueryMapV {
                        name: "fcp_finished"@,
                        kind: QueryKind::List,
                        query: QuerySpecV::Labelled {
                            filters: seq![("state"@, "all"@)],
                            include_labels: seq![
                                "finished-final-comment-period"@,
                                "disposition-merge"@,
                                "to-announce"@,
                            ],
                            exclude_labels: seq!["t-libs"@, "t-libs-api"@],
                        },
                    },
                ],
            },
            QueryV {
                repos: seq![("rust-lang"@, "rust-forge"@)],
                queries: seq![
                    QueryMapV {
                        name: "in_pre_fcp"@,
                        kind: QueryKind::List,
                        query: QuerySpecV::Labelled {
                            filters: seq![("state"@, "open"@)],
                            include_labels: seq!["proposed-final-comment-period"@],
                            exclude_labels: seq!["t-libs"@, "t-libs-api"@],
                        },
                    },
                    QueryMapV {
                        name: "in_fcp"@,
                        kind: QueryKind::List,
                        query: QuerySpecV::Labelled {
                            filters: seq![("state"@, "open"@)],
                            include_labels: seq!["final-comment-period"@],
                            exclude_labels: seq!["t-libs"@, "t-libs-api"@],
                        },
                    },
                    QueryMapV {
                        name: "fcp_finished"@,
                        kind: QueryKind::List,
                        query: QuerySpecV::Labelled {
                            filters: seq![("state"@, "all"@)],
                            include_labels: seq![
                                "finished-final-comment-period"@,
                                "disposition-merge"@,
                                "to-announce"@,
                            ],
                            exclude_labels: seq!["t-libs"@, "t-libs-api"@],
                        },
                    },
                ],
            },
            QueryV {
                repos: seq![("rust-lang"@, "rust"@)],
                queries: seq![
                    QueryMapV {
                        name: "beta_nominated_t_compiler"@,
                        kind: QueryKind::List,
                        query: QuerySpecV::Labelled {
                            filters: seq![],
                            include_labels: seq!["beta-nominated"@, "T-compiler"@],
                            exclude_labels: seq!["beta-accepted"@],
                        },
                    },
                    QueryMapV {
                        name: "stable_nominated_t_compiler"@,
                        kind: QueryKind::List,
                        query: QuerySpecV::Labelled {
                            filters: seq![],
                            include_labels: seq!["stable-nominated"@, "T-compiler"@],
                            exclude_labels: seq!["stable-accepted"@],
                        },
                    },
                    QueryMapV {
                        name: "prs_waiting_on_team_t_compiler"@,
                        kind: QueryKind::List,
                        query: QuerySpecV::Labelled {
                            filters: seq![("state"@, "open"@)],
                            include_labels: seq!["S-waiting-on-team"@, "T-compiler"@],
                            exclude_labels: seq![],
                        },
                    },
                    QueryMapV {
                        name: "issues_of_note_p_critical"@,
                        kind: QueryKind::Count,
                        query: QuerySpecV::Labelled {
                            filters: seq![("state"@, "open"@)],
                            include_labels: seq!["T-compiler"@, "P-critical"@],
                            exclude_labels: seq![],
                        },
                    },
                    QueryMapV {
                        name: "issues_of_note_unassigned_p_critical"@,
                        kind: QueryKind::Count,
                        query: QuerySpecV::Labelled {
                            filters: seq![("state"@, "open"@), ("no"@, "assignee"@)],
                            include_labels: seq!["T-compiler"@, "P-critical"@],
                            exclude_labels: seq![],
                        },
                    },
                    QueryMapV {
                        name: "issues_of_note_p_high"@,
                        kind: QueryKind::Count,
                        query: QuerySpecV::Labelled {
                            filters: seq![("state"@, "open"@)],
                            include_labels: seq!["T-compiler"@, "P-high"@],
                            exclude_labels: seq![],
                        },
                    },
                    QueryMapV {
                        name: "issues_of_note_unassigned_p_high"@,
                        kind: QueryKind::Count,
                        query: QuerySpecV::Labelled {
                            filters: seq![("state"@, "open"@), ("no"@, "assignee"@)],
                            include_labels: seq!["T-compiler"@, "P-high"@],
                            exclude_labels: seq![],
                        },
                    },
                    QueryMapV {
                        name: "issues_of_note_regression_from_stable_to_beta_p_critical"@,
                        kind: QueryKind::Count,
                        query: QuerySpecV::Labelled {
                            filters: seq![("state"@, "open"@)],
                            include_labels: seq!["regression-from-stable-to-beta"@, "P-critical"@],
                            exclude_labels: seq![],
                        },
                    },
                    QueryMapV {
                        name: "issues_of_note_regression_from_stable_to_beta_p_high"@,
                        kind: QueryKind::Count,
                        query: QuerySpecV::Labelled {
                            filters: seq![("state"@, "open"@)],
                            include_labels: seq!["regression-from-stable-to-beta"@, "P-high"@],
                            exclude_labels: seq![],
                        },
                    },
                    QueryMapV {
                        name: "issues_of_note_regression_from_stable_to_beta_p_medium"@,
                        kind: QueryKind::Count,
                        query: QuerySpecV::Labelled {
                            filters: seq![("state"@, "open"@)],
                            include_labels: seq!["regression-from-stable-to-beta"@, "P-medium"@],
                            exclude_labels: seq![],
                        },
                    },
                    QueryMapV {
                        name: "issues_of_note_regression_from_stable_to_beta_p_low"@,
                        kind: QueryKind::Count,
                        query: QuerySpecV::Labelled {
                            filters: seq![("state"@, "open"@)],
                            include_labels: seq!["regression-from-stable-to-beta"@, "P-low"@],
                            exclude_labels: seq![],
                        },
                    },
                    QueryMapV {
                        name: "issues_of_note_regression_from_stable_to_nightly_p_critical"@,
                        kind: QueryKind::Count,
                        query: QuerySpecV::Labelled {
                            filters: seq![("state"@, "open"@)],
                            include_labels: seq!["regression-from-stable-to-nightly"@, "P-critical"@],
                            exclude_labels: seq![],
                        },
                    },
                    QueryMapV {
                        name: "issues_of_note_regression_from_stable_to_nightly_p_high"@,
                        kind: QueryKind::Count,
                        query: QuerySpecV::Labelled {
                            filters: seq![("state"@, "open"@)],
                            include_labels: seq!["regression-from-stable-to-nightly"@, "P-high"@],
                            exclude_labels: seq![],
                        },
                    },
                    QueryMapV {
                        name: "issues_of_note_regression_from_stable_to_nightly_p_medium"@,
                        kind: QueryKind::Count,
                        query: QuerySpecV::Labelled {
                            filters: seq![("state"@, "open"@)],
                            include_labels: seq!["regression-from-stable-to-nightly"@, "P-medium"@],
                            exclude_labels: seq![],
                        },
                    },
                    QueryMapV {
                        name: "issues_of_note_regression_from_stable_to_nightly_p_low"@,
                        kind: QueryKind::Count,
                        query: QuerySpecV::Labelled {
                            filters: seq![("state"@, "open"@)],
                            include_labels: seq!["regression-from-stable-to-nightly"@, "P-low"@],
                            exclude_labels: seq![],
                        },
                    },
                    QueryMapV {
                        name: "issues_of_note_regression_from_stable_to_stable_p_critical"@,
                        kind: QueryKind::Count,
                        query: QuerySpecV::Labelled {
                            filters: seq![("state"@, "open"@)],
                            include_labels: seq!["regression-from-stable-to-stable"@, "P-critical"@],
                            exclude_labels: seq![],
                        },
                    },
                    QueryMapV {
                        name: "issues_of_note_regression_from_stable_to_stable_p_high"@,
                        kind: QueryKind::Count,
                        query: QuerySpecV::Labelled {
                            filters: seq![("state"@, "open"@)],
                            include_labels: seq!["regression-from-stable-to-stable"@, "P-high"@],
                            exclude_labels: seq![],
                        },
                    },
                    QueryMapV {
                        name: "issues_of_note_regression_from_stable_to_stable_p_medium"@,
                        kind: QueryKind::Count,
                        query: QuerySpecV::Labelled {
                            filters: seq![("state"@, "open"@)],
                            include_labels: seq!["regression-from-stable-to-stable"@, "P-medium"@],
                            exclude_labels: seq![],
                        },
                    },
                    QueryMapV {
                        name: "issues_of_note_regression_from_stable_to_stable_p_low"@,
                        kind: QueryKind::Count,
                        query: QuerySpecV::Labelled {
                            filters: seq![("state"@, "open"@)],
                            include_labels: seq!["regression-from-stable-to-stable"@, "P-low"@],
                            exclude_labels: seq![],
                        },
                    },
                    QueryMapV {
                        name: "p_critical_t_compiler"@,
                        kind: QueryKind::List,
                        query: QuerySpecV::Labelled {
                            filters: seq![("state"@, "open"@)],
                            include_labels: seq!["T-compiler"@, "P-critical"@],
                            exclude_labels: seq![],
                        },
                    },
                    QueryMapV {
                        name: "p_critical_t_types"@,
                        kind: QueryKind::List,
                        query: QuerySpecV::Labelled {
                            filters: seq![("state"@, "open"@)],
                            include_labels: seq!["T-types"@, "P-critical"@],
                            exclude_labels: seq![],
                        },
                    },
                    QueryMapV {
                        name: "p_critical_t_rustdoc"@,
                        kind: QueryKind::List,
                        query: QuerySpecV::Labelled {
                            filters: seq![("state"@, "open"@)],
                            include_labels: seq!["T-rustdoc"@, "P-critical"@],
                            exclude_labels: seq![],
                        },
                    },
                    QueryMapV {
                        name: "beta_regressions_p_high"@,
                        kind: QueryKind::List,
                        query: QuerySpecV::Labelled {
                            filters: seq![("state"@, "open"@)],
                            include_labels: seq!["regression-from-stable-to-beta"@, "P-high"@],
                            exclude_labels: seq![
                                "T-infra"@,
                                "T-libs"@,
                                "T-libs-api"@,
                                "T-release"@,
                                "T-rustdoc"@,
                                "T-core"@,
                            ],
                        },
                    },
                    QueryMapV {
                        name: "nightly_regressions_unassigned_p_high"@,
                        kind: QueryKind::List,
                        query: QuerySpecV::Labelled {
                            filters: seq![("state"@, "open"@), ("no"@, "assignee"@)],
                            include_labels: seq!["regression-from-stable-to-nightly"@, "P-high"@],
                            exclude_labels: seq![
                                "T-infra"@,
                                "T-libs"@,
                                "T-libs-api"@,
                                "T-release"@,
                                "T-rustdoc"@,
                                "T-core"@,
                            ],
                        },
                    },
                    QueryMapV {
                        name: "nominated_t_compiler"@,
                        kind: QueryKind::List,
                        query: QuerySpecV::Labelled {
                            filters: seq![("state"@, "open"@)],
                            include_labels: seq!["I-compiler-nominated"@],
                            exclude_labels: seq![],
                        },
                    },
                    QueryMapV {
                        name: "top_unreviewed_prs"@,
                        kind: QueryKind::List,
                        query: QuerySpecV::LeastRecentlyReviewedPullRequests,
                    },
                ],
            },
            QueryV {
                repos: seq![("rust-lang"@, "rfcs"@)],
                queries: seq![
                    QueryMapV {
                        name: "nominated_rfcs_t_compiler"@,
                        kind: QueryKind::List,
                        query: QuerySpecV::Labelled {
                            filters: seq![("state"@, "open"@)],
                            include_labels: seq!["I-compiler-nominated"@],
                            exclude_labels: seq![],
                        },
                    },
                ],
            },
        ],
    }
}

pub fn prioritization() -> (r: Step)
    ensures
        r@ == prioritization_def(),
{
    let r = Step {
        name: "prioritization_agenda".to_string(),
        actions: vec![
            Query {
                repos: vec![("rust-lang".to_string(), "compiler-team".to_string())],
                queries: vec![
                    // MCP/FCP queries
                    QueryMap {
                        name: "mcp_new_not_seconded".to_string(),
                        kind: QueryKind::List,
                        query: QuerySpec::Labelled {
                            filters: vec![("state".to_string(), "open".to_string())],
                            include_labels: vec!["major-change".to_string(), "to-announce".to_string()],
                            exclude_labels: vec![
                                "proposed-final-comment-period".to_string(),
                                "finished-final-comment-period".to_string(),
                                "final-comment-period".to_string(),
                                "major-change-accepted".to_string(),
                                "t-libs".to_string(),
                                "t-libs-api".to_string(),
                            ],
                        },
                    },
                    QueryMap {
                        name: "mcp_old_not_seconded".to_string(),
                        kind: QueryKind::List,
                        query: QuerySpec::Labelled {
                            filters: vec![("state".to_string(), "open".to_string())],
                            include_labels: vec!["major-change".to_string()],
                            exclude_labels: vec![
                                "to-announce".to_string(),
                                "proposed-final-comment-period".to_string(),
                                "finished-final-comment-period".to_string(),
                                "final-comment-period".to_string(),
                                "t-libs".to_string(),
                                "t-libs-api".to_string(),
                            ],
                        },
                    },
                    QueryMap {
                        name: "in_pre_fcp".to_string(),
                        kind: QueryKind::List,
                        query: QuerySpec::Labelled {
                            filters: vec![("state".to_string(), "open".to_string())],
                            include_labels: vec!["proposed-final-comment-period".to_string()],
                            exclude_labels: vec!["t-libs".to_string(), "t-libs-api".to_string()],
                        },
                    },
                    QueryMap {
                        name: "in_fcp".to_string(),
                        kind: QueryKind::List,
                        query: QuerySpec::Labelled {
                            filters: vec![("state".to_string(), "open".to_string())],
                            include_labels: vec!["final-comment-period".to_string()],
                            exclude_labels: vec!["t-libs".to_string(), "t-libs-api".to_string()],
                        },
                    },
                    QueryMap {
                        name: "mcp_accepted".to_string(),
                        kind: QueryKind::List,
                        query: QuerySpec::Labelled {
                            filters: vec![("state".to_string(), "all".to_string())],
                            include_labels: vec!["major-change-accepted".to_string(), "to-announce".to_string()],
                            exclude_labels: vec!["t-libs".to_string(), "t-libs-api".to_string()],
                        },
                    },
                    QueryMap {
                        name: "fcp_finished".to_string(),
                        kind: QueryKind::List,
                        query: QuerySpec::Labelled {
                            filters: vec![("state".to_string(), "all".to_string())],
                            include_labels: vec![
                                "finished-final-comment-period".to_string(),
                                "disposition-merge".to_string(),
                                "to-announce".to_string(),
                            ],
                            exclude_labels: vec!["t-libs".to_string(), "t-libs-api".to_string()],
                        },
                    },
                ],
            },
            Query {
                repos: vec![("rust-lang".to_string(), "rust".to_string())],
                queries: vec![
                    QueryMap {
                        name: "in_pre_fcp".to_string(),
                        kind: QueryKind::List,
                        query: QuerySpec::Labelled {
                            filters: vec![("state".to_string(), "open".to_string())],
                            include_labels: vec!["proposed-final-comment-period".to_string(), "T-compiler".to_string()],
                            exclude_labels: vec!["t-libs".to_string(), "t-libs-api".to_string()],
                        },
                    },
                    QueryMap {
                        name: "in_fcp".to_string(),
                        kind: QueryKind::List,
                        query: QuerySpec::Labelled {
                            filters: vec![("state".to_string(), "open".to_string())],
                            include_labels: vec!["final-comment-period".to_string(), "T-compiler".to_string()],
                            exclude_labels: vec!["t-libs".to_string(), "t-libs-api".to_string()],
                        },
                    },
                    QueryMap {
                        name: "fcp_finished".to_string(),
                        kind: QueryKind::List,
                        query: QuerySpec::Labelled {
                            filters: vec![("state".to_string(), "all".to_string())],
                            include_labels: vec![
                                "finished-final-comment-period".to_string(),
                                "disposition-merge".to_string(),
                                "to-announce".to_string(),
                            ],
                            exclude_labels: vec!["t-libs".to_string(), "t-libs-api".to_string()],
                        },
                    },
                ],
            },
            Query {
                repos: vec![("rust-lang".to_string(), "rust-forge".to_string())],
                queries: vec![
                    QueryMap {
                        name: "in_pre_fcp".to_string(),
                        kind: QueryKind::List,
                        query: QuerySpec::Labelled {
                            filters: vec![("state".to_string(), "open".to_string())],
                            include_labels: vec!["proposed-final-comment-period".to_string()],
                            exclude_labels: vec!["t-libs".to_string(), "t-libs-api".to_string()],
                        },
                    },
                    QueryMap {
                        name: "in_fcp".to_string(),
                        kind: QueryKind::List,
                        query: QuerySpec::Labelled {
                            filters: vec![("state".to_string(), "open".to_string())],
                            include_labels: vec!["final-comment-period".to_string()],
                            exclude_labels: vec!["t-libs".to_string(), "t-libs-api".to_string()],
                        },
                    },
                    QueryMap {
                        name: "fcp_finished".to_string(),
                        kind: QueryKind::List,
                        query: QuerySpec::Labelled {
                            filters: vec![("state".to_string(), "all".to_string())],
                            include_labels: vec![
                                "finished-final-comment-period".to_string(),
                                "disposition-merge".to_string(),
                                "to-announce".to_string(),
                            ],
                            exclude_labels: vec!["t-libs".to_string(), "t-libs-api".to_string()],
                        },
                    },
                ],
            },
            Query {
                repos: vec![("rust-lang".to_string(), "rust".to_string())],
                queries: vec![
                    // beta nomination queries
                    QueryMap {
                        name: "beta_nominated_t_compiler".to_string(),
                        kind: QueryKind::List,
                        query: QuerySpec::Labelled {
                            filters: vec![],
                            include_labels: vec!["beta-nominated".to_string(), "T-compiler".to_string()],
                            exclude_labels: vec!["beta-accepted".to_string()],
                        },
                    },
                    // stable nomination queries
                    QueryMap {
                        name: "stable_nominated_t_compiler".to_string(),
                        kind: QueryKind::List,
                        query: QuerySpec::Labelled {
                            filters: vec![],
                            include_labels: vec!["stable-nominated".to_string(), "T-compiler".to_string()],
                            exclude_labels: vec!["stable-accepted".to_string()],
                        },
                    },
                    // prs waiting on team queries
                    QueryMap {
                        name: "prs_waiting_on_team_t_compiler".to_string(),
                        kind: QueryKind::List,
                        query: QuerySpec::Labelled {
                            filters: vec![("state".to_string(), "open".to_string())],
                            include_labels: vec!["S-waiting-on-team".to_string(), "T-compiler".to_string()],
                            exclude_labels: vec![],
                        },
                    },
                    // issues of note queries
                    QueryMap {
                        name: "issues_of_note_p_critical".to_string(),
                        kind: QueryKind::Count,
                        query: QuerySpec::Labelled {
                            filters: vec![("state".to_string(), "open".to_string())],
                            include_labels: vec!["T-compiler".to_string(), "P-critical".to_string()],
                            exclude_labels: vec![],
                        },
                    },
                    QueryMap {
                        name: "issues_of_note_unassigned_p_critical".to_string(),
                        kind: QueryKind::Count,
                        query: QuerySpec::Labelled {
                            filters: vec![("state".to_string(), "open".to_string()), ("no".to_string(), "assignee".to_string())],
                            include_labels: vec!["T-compiler".to_string(), "P-critical".to_string()],
                            exclude_labels: vec![],
                        },
                    },
                    QueryMap {
                        name: "issues_of_note_p_high".to_string(),
                        kind: QueryKind::Count,
                        query: QuerySpec::Labelled {
                            filters: vec![("state".to_string(), "open".to_string())],
                            include_labels: vec!["T-compiler".to_string(), "P-high".to_string()],
                            exclude_labels: vec![],
                        },
                    },
                    QueryMap {
                        name: "issues_of_note_unassigned_p_high".to_string(),
                        kind: QueryKind::Count,
                        query: QuerySpec::Labelled {
                            filters: vec![("state".to_string(), "open".to_string()), ("no".to_string(), "assignee".to_string())],
                            include_labels: vec!["T-compiler".to_string(), "P-high".to_string()],
                            exclude_labels: vec![],
                        },
                    },
                    QueryMap {
                        name: "issues_of_note_regression_from_stable_to_beta_p_critical".to_string(),
                        kind: QueryKind::Count,
                        query: QuerySpec::Labelled {
                            filters: vec![("state".to_string(), "open".to_string())],
                            include_labels: vec!["regression-from-stable-to-beta".to_string(), "P-critical".to_string()],
                            exclude_labels: vec![],
                        },
                    },
                    QueryMap {
                        name: "issues_of_note_regression_from_stable_to_beta_p_high".to_string(),
                        kind: QueryKind::Count,
                        query: QuerySpec::Labelled {
                            filters: vec![("state".to_string(), "open".to_string())],
                            include_labels: vec!["regression-from-stable-to-beta".to_string(), "P-high".to_string()],
                            exclude_labels: vec![],
                        },
                    },
                    QueryMap {
                        name: "issues_of_note_regression_from_stable_to_beta_p_medium".to_string(),
                        kind: QueryKind::Count,
                        query: QuerySpec::Labelled {
                            filters: vec![("state".to_string(), "open".to_string())],
                            include_labels: vec!["regression-from-stable-to-beta".to_string(), "P-medium".to_string()],
                            exclude_labels: vec![],
                        },
                    },
                    QueryMap {
                        name: "issues_of_note_regression_from_stable_to_beta_p_low".to_string(),
                        kind: QueryKind::Count,
                        query: QuerySpec::Labelled {
                            filters: vec![("state".to_string(), "open".to_string())],
                            include_labels: vec!["regression-from-stable-to-beta".to_string(), "P-low".to_string()],
                            exclude_labels: vec![],
                        },
                    },
                    QueryMap {
                        name: "issues_of_note_regression_from_stable_to_nightly_p_critical".to_string(),
                        kind: QueryKind::Count,
                        query: QuerySpec::Labelled {
                            filters: vec![("state".to_string(), "open".to_string())],
                            include_labels: vec!["regression-from-stable-to-nightly".to_string(), "P-critical".to_string()],
                            exclude_labels: vec![],
                        },
                    },
                    QueryMap {
                        name: "issues_of_note_regression_from_stable_to_nightly_p_high".to_string(),
                        kind: QueryKind::Count,
                        query: QuerySpec::Labelled {
                            filters: vec![("state".to_string(), "open".to_string())],
                            include_labels: vec!["regression-from-stable-to-nightly".to_string(), "P-high".to_string()],
                            exclude_labels: vec![],
                        },
                    },
                    QueryMap {
                        name: "issues_of_note_regression_from_stable_to_nightly_p_medium".to_string(),
                        kind: QueryKind::Count,
                        query: QuerySpec::Labelled {
                            filters: vec![("state".to_string(), "open".to_string())],
                            include_labels: vec!["regression-from-stable-to-nightly".to_string(), "P-medium".to_string()],
                            exclude_labels: vec![],
                        },
                    },
                    QueryMap {
                        name: "issues_of_note_regression_from_stable_to_nightly_p_low".to_string(),
                        kind: QueryKind::Count,
                        query: QuerySpec::Labelled {
                            filters: vec![("state".to_string(), "open".to_string())],
                            include_labels: vec!["regression-from-stable-to-nightly".to_string(), "P-low".to_string()],
                            exclude_labels: vec![],
                        },
                    },
                    QueryMap {
                        name: "issues_of_note_regression_from_stable_to_stable_p_critical".to_string(),
                        kind: QueryKind::Count,
                        query: QuerySpec::Labelled {
                            filters: vec![("state".to_string(), "open".to_string())],
                            include_labels: vec!["regression-from-stable-to-stable".to_string(), "P-critical".to_string()],
                            exclude_labels: vec![],
                        },
                    },
                    QueryMap {
                        name: "issues_of_note_regression_from_stable_to_stable_p_high".to_string(),
                        kind: QueryKind::Count,
                        query: QuerySpec::Labelled {
                            filters: vec![("state".to_string(), "open".to_string())],
                            include_labels: vec!["regression-from-stable-to-stable".to_string(), "P-high".to_string()],
                            exclude_labels: vec![],
                        },
                    },
                    QueryMap {
                        name: "issues_of_note_regression_from_stable_to_stable_p_medium".to_string(),
                        kind: QueryKind::Count,
                        query: QuerySpec::Labelled {
                            filters: vec![("state".to_string(), "open".to_string())],
                            include_labels: vec!["regression-from-stable-to-stable".to_string(), "P-medium".to_string()],
                            exclude_labels: vec![],
                        },
                    },
                    QueryMap {
                        name: "issues_of_note_regression_from_stable_to_stable_p_low".to_string(),
                        kind: QueryKind::Count,
                        query: QuerySpec::Labelled {
                            filters: vec![("state".to_string(), "open".to_string())],
                            include_labels: vec!["regression-from-stable-to-stable".to_string(), "P-low".to_string()],
                            exclude_labels: vec![],
                        },
                    },
                    QueryMap {
                        name: "p_critical_t_compiler".to_string(),
                        kind: QueryKind::List,
                        query: QuerySpec::Labelled {
                            filters: vec![("state".to_string(), "open".to_string())],
                            include_labels: vec!["T-compiler".to_string(), "P-critical".to_string()],
                            exclude_labels: vec![],
                        },
                    },
                    QueryMap {
                        name: "p_critical_t_types".to_string(),
                        kind: QueryKind::List,
                        query: QuerySpec::Labelled {
                            filters: vec![("state".to_string(), "open".to_string())],
                            include_labels: vec!["T-types".to_string(), "P-critical".to_string()],
                            exclude_labels: vec![],
                        },
                    },
                    QueryMap {
                        name: "p_critical_t_rustdoc".to_string(),
                        kind: QueryKind::List,
                        query: QuerySpec::Labelled {
                            filters: vec![("state".to_string(), "open".to_string())],
                            include_labels: vec!["T-rustdoc".to_string(), "P-critical".to_string()],
                            exclude_labels: vec![],
                        },
                    },
                    QueryMap {
                        name: "beta_regressions_p_high".to_string(),
                        kind: QueryKind::List,
                        query: QuerySpec::Labelled {
                            filters: vec![("state".to_string(), "open".to_string())],
                            include_labels: vec!["regression-from-stable-to-beta".to_string(), "P-high".to_string()],
                            exclude_labels: vec![
                                "T-infra".to_string(),
                                "T-libs".to_string(),
                                "T-libs-api".to_string(),
                                "T-release".to_string(),
                                "T-rustdoc".to_string(),
                                "T-core".to_string(),
                            ],
                        },
                    },
                    QueryMap {
                        name: "nightly_regressions_unassigned_p_high".to_string(),
                        kind: QueryKind::List,
                        query: QuerySpec::Labelled {
                            filters: vec![("state".to_string(), "open".to_string()), ("no".to_string(), "assignee".to_string())],
                            include_labels: vec!["regression-from-stable-to-nightly".to_string(), "P-high".to_string()],
                            exclude_labels: vec![
                                "T-infra".to_string(),
                                "T-libs".to_string(),
                                "T-libs-api".to_string(),
                                "T-release".to_string(),
                                "T-rustdoc".to_string(),
                                "T-core".to_string(),
                            ],
                        },
                    },
                    QueryMap {
                        name: "nominated_t_compiler".to_string(),
                        kind: QueryKind::List,
                        query: QuerySpec::Labelled {
                            filters: vec![("state".to_string(), "open".to_string())],
                            include_labels: vec!["I-compiler-nominated".to_string()],
                            exclude_labels: vec![],
                        },
                    },
                    QueryMap {
                        name: "top_unreviewed_prs".to_string(),
                        kind: QueryKind::List,
                        query: QuerySpec::LeastRecentlyReviewedPullRequests,
                    },
                ],
            },
            Query {
                repos: vec![("rust-lang".to_string(), "rfcs".to_string())],
                queries: vec![
                    // retrieve some RFCs for the T-compiler agenda
                    // https://github.com/rust-lang/rfcs/pulls?q=is%3Aopen+label%3AI-compiler-nominated
                    QueryMap {
                        name: "nominated_rfcs_t_compiler".to_string(),
                        kind: QueryKind::List,
                        query: QuerySpec::Labelled {
                            filters: vec![("state".to_string(), "open".to_string())],
                            include_labels: vec!["I-compiler-nominated".to_string()],
                            exclude_labels: vec![],
                        },
                    },
                ],
            },
        ],
    };
    proof {
        assert(r@ =~~= prioritization_def());
    }
    r
}

/// The whole report, as the contract's model.
pub open spec fn lang_def() -> StepV {
    StepV {
        name: "lang_agenda"@,
        actions: seq![
            QueryV {
                repos: seq![("rust-lang"@, "lang-team"@)],
                queries: seq![
                    QueryMapV {
                        name: "pending_project_proposals"@,
                        kind: QueryKind::List,
                        query: QuerySpecV::Labelled {
                            filters: seq![("state"@, "open"@), ("is"@, "issue"@)],
                            include_labels: seq!["major-change"@],
                            exclude_labels: seq!["charter-needed"@, "proposed-final-comment-period"@],
                        },
                    },
                    QueryMapV {
                        name: "pending_lang_team_prs"@,
                        kind: QueryKind::List,
                        query: QuerySpecV::Labelled {
                            filters: seq![("state"@, "open"@), ("is"@, "pull-request"@)],
                            include_labels: seq![],
                            exclude_labels: seq![],
                        },
                    },
                    QueryMapV {
                        name: "scheduled_meetings"@,
                        kind: QueryKind::List,
                        query: QuerySpecV::DesignMeetings {
                            project_number: 31,
                            with_status: DesignMeetingStatus::Scheduled,
                        },
                    },
                    QueryMapV {
                        name: "edition_priority_issues"@,
                        kind: QueryKind::List,
                        query: QuerySpecV::ProjectBoard {
                            project_number: 43,
                            with_status: StatusFilterV::EqualsOrUnset("Priority"@),
                        },
                    },
                ],
            },
            QueryV {
                repos: seq![("rust-lang"@, "rfcs"@)],
                queries: seq![QueryMapV {
                    name: "rfcs_waiting_to_be_merged"@,
                    kind: QueryKind::List,
                    query: QuerySpecV::Labelled {
                        filters: seq![("state"@, "open"@), ("is"@, "pr"@)],
                        include_labels: seq![
                            "disposition-merge"@,
                            "finished-final-comment-period"@,
                            "T-lang"@,
                        ],
                        exclude_labels: seq![],
                    },
                }],
            },
            QueryV {
                repos: seq![
                    ("rust-lang"@, "rfcs"@),
                    ("rust-lang"@, "rust"@),
                    ("rust-lang"@, "reference"@),
                    ("rust-lang"@, "lang-team"@),
                    ("rust-lang"@, "compiler-team"@),
                    ("rust-lang"@, "rust-project-goals"@),
                ],
                queries: seq![
                    QueryMapV {
                        name: "p_critical"@,
                        kind: QueryKind::List,
                        query: QuerySpecV::Labelled {
                            filters: seq![("state"@, "open"@)],
                            include_labels: seq!["T-lang"@, "P-critical"@],
                            exclude_labels: seq![],
                        },
                    },
                    QueryMapV {
                        name: "nominated"@,
                        kind: QueryKind::List,
                        query: QuerySpecV::Labelled {
                            filters: seq![("state"@, "open"@)],
                            include_labels: seq!["I-lang-nominated"@],
                            exclude_labels: seq![],
                        },
                    },
                    QueryMapV {
                        name: "waiting_on_lang_team"@,
                        kind: QueryKind::List,
                        query: QuerySpecV::Labelled {
                            filters: seq![("state"@, "open"@)],
                            include_labels: seq!["S-waiting-on-team"@, "T-lang"@],
                            exclude_labels: seq![],
                        },
                    },
                    QueryMapV {
                        name: "proposed_fcp"@,
                        kind: QueryKind::List,
                        query: QuerySpecV::Labelled {
                            filters: seq![("state"@, "open"@)],
                            include_labels: seq!["T-lang"@, "proposed-final-comment-period"@],
                            exclude_labels: seq!["finished-final-comment-period"@],
                        },
                    },
                    QueryMapV {
                        name: "in_fcp"@,
                        kind: QueryKind::List,
                        query: QuerySpecV::Labelled {
                            filters: seq![("state"@, "open"@)],
                            include_labels: seq!["T-lang"@, "final-comment-period"@],
                            exclude_labels: seq!["finished-final-comment-period"@],
                        },
                    },
                    QueryMapV {
                        name: "finished_fcp"@,
                        kind: QueryKind::List,
                        query: QuerySpecV::Labelled {
                            filters: seq![("state"@, "open"@)],
                            include_labels: seq!["T-lang"@, "finished-final-comment-period"@],
                            exclude_labels: seq![],
                        },
                    },
                ],
            },
        ],
    }
}

pub fn lang() -> (r: Step)
    ensures
        r@ == lang_def(),
{
    let r = Step {
        name: "lang_agenda".to_string(),
        actions: vec![
            Query {
                repos: vec![("rust-lang".to_string(), "lang-team".to_string())],
                queries: vec![
                    QueryMap {
                        name: "pending_project_proposals".to_string(),
                        kind: QueryKind::List,
                        query: QuerySpec::Labelled {
                            filters: vec![("state".to_string(), "open".to_string()), ("is".to_string(), "issue".to_string())],
                            include_labels: vec!["major-change".to_string()],
                            exclude_labels: vec!["charter-needed".to_string(), "proposed-final-comment-period".to_string()],
                        },
                    },
                    QueryMap {
                        name: "pending_lang_team_prs".to_string(),
                        kind: QueryKind::List,
                        query: QuerySpec::Labelled {
                            filters: vec![("state".to_string(), "open".to_string()), ("is".to_string(), "pull-request".to_string())],
                            include_labels: vec![],
                            exclude_labels: vec![],
                        },
                    },
                    QueryMap {
                        name: "scheduled_meetings".to_string(),
                        kind: QueryKind::List,
                        query: QuerySpec::DesignMeetings {
                            project_number: 31,
                            with_status: DesignMeetingStatus::Scheduled,
                        },
                    },
                    QueryMap {
                        name: "edition_priority_issues".to_string(),
                        kind: QueryKind::List,
                        query: QuerySpec::ProjectBoard {
                            project_number: 43,
                            with_status: StatusFilter::EqualsOrUnset("Priority".to_string()),
                        },
                    },
                ],
            },
            Query {
                repos: vec![("rust-lang".to_string(), "rfcs".to_string())],
                queries: vec![QueryMap {
                    name: "rfcs_waiting_to_be_merged".to_string(),
                    kind: QueryKind::List,
                    query: QuerySpec::Labelled {
                        filters: vec![("state".to_string(), "open".to_string()), ("is".to_string(), "pr".to_string())],
                        include_labels: vec![
                            "disposition-merge".to_string(),
                            "finished-final-comment-period".to_string(),
                            "T-lang".to_string(),
                        ],
                        exclude_labels: vec![],
                    },
                }],
            },
            Query {
                repos: vec![
                    ("rust-lang".to_string(), "rfcs".to_string()),
                    ("rust-lang".to_string(), "rust".to_string()),
                    ("rust-lang".to_string(), "reference".to_string()),
                    ("rust-lang".to_string(), "lang-team".to_string()),
                    ("rust-lang".to_string(), "compiler-team".to_string()),
                    ("rust-lang".to_string(), "rust-project-goals".to_string()),
                ],
                queries: vec![
                    QueryMap {
                        name: "p_critical".to_string(),
                        kind: QueryKind::List,
                        query: QuerySpec::Labelled {
                            filters: vec![("state".to_string(), "open".to_string())],
                            include_labels: vec!["T-lang".to_string(), "P-critical".to_string()],
                            exclude_labels: vec![],
                        },
                    },
                    QueryMap {
                        name: "nominated".to_string(),
                        kind: QueryKind::List,
                        query: QuerySpec::Labelled {
                            filters: vec![("state".to_string(), "open".to_string())],
                            include_labels: vec!["I-lang-nominated".to_string()],
                            exclude_labels: vec![],
                        },
                    },
                    QueryMap {
                        name: "waiting_on_lang_team".to_string(),
                        kind: QueryKind::List,
                        query: QuerySpec::Labelled {
                            filters: vec![("state".to_string(), "open".to_string())],
                            include_labels: vec!["S-waiting-on-team".to_string(), "T-lang".to_string()],
                            exclude_labels: vec![],
                        },
                    },
                    QueryMap {
                        name: "proposed_fcp".to_string(),
                        kind: QueryKind::List,
                        query: QuerySpec::Labelled {
                            filters: vec![("state".to_string(), "open".to_string())],
                            include_labels: vec!["T-lang".to_string(), "proposed-final-comment-period".to_string()],
                            exclude_labels: vec!["finished-final-comment-period".to_string()],
                        },
                    },
                    QueryMap {
                        name: "in_fcp".to_string(),
                        kind: QueryKind::List,
                        query: QuerySpec::Labelled {
                            filters: vec![("state".to_string(), "open".to_string())],
                            include_labels: vec!["T-lang".to_string(), "final-comment-period".to_string()],
                            exclude_labels: vec!["finished-final-comment-period".to_string()],
                        },
                    },
                    QueryMap {
                        name: "finished_fcp".to_string(),
                        kind: QueryKind::List,
                        query: QuerySpec::Labelled {
                            filters: vec![("state".to_string(), "open".to_string())],
                            include_labels: vec!["T-lang".to_string(), "finished-final-comment-period".to_string()],
                            exclude_labels: vec![],
                        },
                    },
                ],
            },
        ],
    };
    proof {
        assert(r@ =~~= lang_def());
    }
    r
}

/// The whole report, as the contract's model.
pub open spec fn lang_planning_def() -> StepV {
    StepV {
        name: "lang_planning_agenda"@,
        actions: seq![
            QueryV {
                repos: seq![("rust-lang"@, "lang-team"@)],
                queries: seq![
                    QueryMapV {
                        name: "pending_project_proposals"@,
                        kind: QueryKind::List,
                        query: QuerySpecV::Labelled {
                            filters: seq![("state"@, "open"@), ("is"@, "issue"@)],
                            include_labels: seq!["major-change"@],
                            exclude_labels: seq!["charter-needed"@],
                        },
                    },
                    QueryMapV {
                        name: "pending_lang_team_prs"@,
                        kind: QueryKind::List,
                        query: QuerySpecV::Labelled {
                            filters: seq![("state"@, "open"@), ("is"@, "pr"@)],
                            include_labels: seq![],
                            exclude_labels: seq![],
                        },
                    },
                    QueryMapV {
                        name: "proposed_meetings"@,
                        kind: QueryKind::List,
                        query: QuerySpecV::DesignMeetings {
                            project_number: 31,
                            with_status: DesignMeetingStatus::Proposed,
                        },
                    },
                ],
            },
            QueryV {
                repos: seq![("rust-lang"@, "lang-team"@)],
                queries: seq![QueryMapV {
                    name: "active_initiatives"@,
                    kind: QueryKind::List,
                    query: QuerySpecV::Labelled {
                        filters: seq![("state"@, "open"@), ("is"@, "issue"@)],
                        include_labels: seq!["lang-initiative"@],
                        exclude_labels: seq![],
                    },
                }],
            },
        ],
    }
}

pub fn lang_planning() -> (r: Step)
    ensures
        r@ == lang_planning_def(),
{
    let r = Step {
        name: "lang_planning_agenda".to_string(),
        actions: vec![
            Query {
                repos: vec![("rust-lang".to_string(), "lang-team".to_string())],
                queries: vec![
                    QueryMap {
                        name: "pending_project_proposals".to_string(),
                        kind: QueryKind::List,
                        query: QuerySpec::Labelled {
                            filters: vec![("state".to_string(), "open".to_string()), ("is".to_string(), "issue".to_string())],
                            include_labels: vec!["major-change".to_string()],
                            exclude_labels: vec!["charter-needed".to_string()],
                        },
                    },
                    QueryMap {
                        name: "pending_lang_team_prs".to_string(),
                        kind: QueryKind::List,
                        query: QuerySpec::Labelled {
                            filters: vec![("state".to_string(), "open".to_string()), ("is".to_string(), "pr".to_string())],
                            include_labels: vec![],
                            exclude_labels: vec![],
                        },
                    },
                    QueryMap {
                        name: "proposed_meetings".to_string(),
                        kind: QueryKind::List,
                        query: QuerySpec::DesignMeetings {
                            project_number: 31,
                            with_status: DesignMeetingStatus::Proposed,
                        },
                    },
                ],
            },
            Query {
                repos: vec![("rust-lang".to_string(), "lang-team".to_string())],
                queries: vec![QueryMap {
                    name: "active_initiatives".to_string(),
                    kind: QueryKind::List,
                    query: QuerySpec::Labelled {
                        filters: vec![("state".to_string(), "open".to_string()), ("is".to_string(), "issue".to_string())],
                        include_labels: vec!["lang-initiative".to_string()],
                        exclude_labels: vec![],
                    },
                }],
            },
        ],
    };
    proof {
        assert(r@ =~~= lang_planning_def());
    }
    r
}

/// The whole report, as the contract's model.
pub open spec fn lang_design_def() -> StepV {
    StepV {
        name: "lang_design_doc"@,
        actions: seq![],
    }
}

pub fn lang_design() -> (r: Step)
    ensures
        r@ == lang_design_def(),
{
    let r = Step {
        name: "lang_design_doc".to_string(),
        actions: vec![],
    };
    proof {
        assert(r@ =~~= lang_design_def());
    }
    r
}

/// The whole report, as the contract's model.
pub open spec fn style_triage_def() -> StepV {
    StepV {
        name: "style_triage_agenda"@,
        actions: seq![
            QueryV {
                repos: seq![("rust-lang"@, "style-team"@)],
                queries: seq![
                    QueryMapV {
                        name: "pending_team_prs"@,
                        kind: QueryKind::List,
                        query: QuerySpecV::Labelled {
                            filters: seq![("state"@, "open"@), ("is"@, "pull-request"@)],
                            include_labels: seq![],
                            exclude_labels: seq![],
                        },
                    },
                    QueryMapV {
                        name: "scheduled_design_meetings"@,
                        kind: QueryKind::List,
                        query: QuerySpecV::DesignMeetings {
                            project_number: 38,
                            with_status: DesignMeetingStatus::Scheduled,
                        },
                    },
                    QueryMapV {
                        name: "proposed_design_meetings"@,
                        kind: QueryKind::List,
                        query: QuerySpecV::DesignMeetings {
                            project_number: 38,
                            with_status: DesignMeetingStatus::Proposed,
                        },
                    },
                ],
            },
            QueryV {
                repos: seq![("rust-lang"@, "rfcs"@)],
                queries: seq![QueryMapV {
                    name: "rfcs_waiting_to_be_merged"@,
                    kind: QueryKind::List,
                    query: QuerySpecV::Labelled {
                        filters: seq![("state"@, "open"@), ("is"@, "pr"@)],
                        include_labels: seq![
                            "disposition-merge"@,
                            "finished-final-comment-period"@,
                            "T-style"@,
                        ],
                        exclude_labels: seq![],
                    },
                }],
            },
            QueryV {
                repos: seq![
                    ("rust-lang"@, "rfcs"@),
                    ("rust-lang"@, "rust"@),
                    ("rust-lang"@, "style-team"@),
                ],
                queries: seq![
                    QueryMapV {
                        name: "p_critical"@,
                        kind: QueryKind::List,
                        query: QuerySpecV::Labelled {
                            filters: seq![("state"@, "open"@)],
                            include_labels: seq!["T-style"@, "P-critical"@],
                            exclude_labels: seq![],
                        },
                    },
                    QueryMapV {
                        name: "nominated"@,
                        kind: QueryKind::List,
                        query: QuerySpecV::Labelled {
                            filters: seq![("state"@, "open"@)],
                            include_labels: seq!["I-style-nominated"@],
                            exclude_labels: seq![],
                        },
                    },
                    QueryMapV {
                        name: "waiting_on_team"@,
                        kind: QueryKind::List,
                        query: QuerySpecV::Labelled {
                            filters: seq![("state"@, "open"@)],
                            include_labels: seq!["T-style"@, "S-waiting-on-team"@],
                            exclude_labels: seq![],
                        },
                    },
                    QueryMapV {
                        name: "proposed_fcp"@,
                        kind: QueryKind::List,
                        query: QuerySpecV::Labelled {
                            filters: seq![("state"@, "open"@)],
                            include_labels: seq!["T-style"@, "proposed-final-comment-period"@],
                            exclude_labels: seq!["finished-final-comment-period"@],
                        },
                    },
                    QueryMapV {
                        name: "in_fcp"@,
                        kind: QueryKind::List,
                        query: QuerySpecV::Labelled {
                            filters: seq![("state"@, "open"@)],
                            include_labels: seq!["T-style"@, "final-comment-period"@],
                            exclude_labels: seq!["finished-final-comment-period"@],
                        },
                    },
                    QueryMapV {
                        name: "finished_fcp"@,
                        kind: QueryKind::List,
                        query: QuerySpecV::Labelled {
                            filters: seq![("state"@, "open"@)],
                            include_labels: seq!["T-style"@, "finished-final-comment-period"@],
                            exclude_labels: seq![],
                        },
                    },
                ],
            },
        ],
    }
}

pub fn style_triage() -> (r: Step)
    ensures
        r@ == style_triage_def(),
{
    let r = Step {
        name: "style_triage_agenda".to_string(),
        actions: vec![
            Query {
                repos: vec![("rust-lang".to_string(), "style-team".to_string())],
                queries: vec![
                    QueryMap {
                        name: "pending_team_prs".to_string(),
                        kind: QueryKind::List,
                        query: QuerySpec::Labelled {
                            filters: vec![("state".to_string(), "open".to_string()), ("is".to_string(), "pull-request".to_string())],
                            include_labels: vec![],
                            exclude_labels: vec![],
                        },
                    },
                    QueryMap {
                        name: "scheduled_design_meetings".to_string(),
                        kind: QueryKind::List,
                        query: QuerySpec::DesignMeetings {
                            project_number: 38,
                            with_status: DesignMeetingStatus::Scheduled,
                        },
                    },
                    QueryMap {
                        name: "proposed_design_meetings".to_string(),
                        kind: QueryKind::List,
                        query: QuerySpec::DesignMeetings {
                            project_number: 38,
                            with_status: DesignMeetingStatus::Proposed,
                        },
                    },
                ],
            },
            Query {
                repos: vec![("rust-lang".to_string(), "rfcs".to_string())],
                queries: vec![QueryMap {
                    name: "rfcs_waiting_to_be_merged".to_string(),
                    kind: QueryKind::List,
                    query: QuerySpec::Labelled {
                        filters: vec![("state".to_string(), "open".to_string()), ("is".to_string(), "pr".to_string())],
                        include_labels: vec![
                            "disposition-merge".to_string(),
                            "finished-final-comment-period".to_string(),
                            "T-style".to_string(),
                        ],
                        exclude_labels: vec![],
                    },
                }],
            },
            Query {
                repos: vec![
                    ("rust-lang".to_string(), "rfcs".to_string()),
                    ("rust-lang".to_string(), "rust".to_string()),
                    ("rust-lang".to_string(), "style-team".to_string()),
                ],
                queries: vec![
                    QueryMap {
                        name: "p_critical".to_string(),
                        kind: QueryKind::List,
                        query: QuerySpec::Labelled {
                            filters: vec![("state".to_string(), "open".to_string())],
                            include_labels: vec!["T-style".to_string(), "P-critical".to_string()],
                            exclude_labels: vec![],
                        },
                    },
                    QueryMap {
                        name: "nominated".to_string(),
                        kind: QueryKind::List,
                        query: QuerySpec::Labelled {
                            filters: vec![("state".to_string(), "open".to_string())],
                            include_labels: vec!["I-style-nominated".to_string()],
                            exclude_labels: vec![],
                        },
                    },
                    QueryMap {
                        name: "waiting_on_team".to_string(),
                        kind: QueryKind::List,
                        query: QuerySpec::Labelled {
                            filters: vec![("state".to_string(), "open".to_string())],
                            include_labels: vec!["T-style".to_string(), "S-waiting-on-team".to_string()],
                            exclude_labels: vec![],
                        },
                    },
                    QueryMap {
                        name: "proposed_fcp".to_string(),
                        kind: QueryKind::List,
                        query: QuerySpec::Labelled {
                            filters: vec![("state".to_string(), "open".to_string())],
                            include_labels: vec!["T-style".to_string(), "proposed-final-comment-period".to_string()],
                            exclude_labels: vec!["finished-final-comment-period".to_string()],
                        },
                    },
                    QueryMap {
                        name: "in_fcp".to_string(),
                        kind: QueryKind::List,
                        query: QuerySpec::Labelled {
                            filters: vec![("state".to_string(), "open".to_string())],
                            include_labels: vec!["T-style".to_string(), "final-comment-period".to_string()],
                            exclude_labels: vec!["finished-final-comment-period".to_string()],
                        },
                    },
                    QueryMap {
                        name: "finished_fcp".to_string(),
                        kind: QueryKind::List,
                        query: QuerySpec::Labelled {
                            filters: vec![("state".to_string(), "open".to_string())],
                            include_labels: vec!["T-style".to_string(), "finished-final-comment-period".to_string()],
                            exclude_labels: vec![],
                        },
                    },
                ],
            },
        ],
    };
    proof {
        assert(r@ =~~= style_triage_def());
    }
    r
}

/// The whole report, as the contract's model.
pub open spec fn async_triage_def() -> StepV {
    StepV {
        name: "async_triage_agenda"@,
        actions: seq![
            QueryV {
                repos: seq![("rust-lang"@, "wg-async"@)],
                queries: seq![
                    QueryMapV {
                        name: "pending_team_prs"@,
                        kind: QueryKind::List,
                        query: QuerySpecV::Labelled {
                            filters: seq![("state"@, "open"@), ("is"@, "pull-request"@)],
                            include_labels: seq![],
                            exclude_labels: seq![],
                        },
                    },
                    QueryMapV {
                        name: "scheduled_meetings"@,
                        kind: QueryKind::List,
                        query: QuerySpecV::DesignMeetings {
                            project_number: 40,
                            with_status: DesignMeetingStatus::Scheduled,
                        },
                    },
                    QueryMapV {
                        name: "proposed_meetings"@,
                        kind: QueryKind::List,
                        query: QuerySpecV::DesignMeetings {
                            project_number: 40,
                            with_status: DesignMeetingStatus::Proposed,
                        },
                    },
                ],
            },
            QueryV {
                repos: seq![
                    ("rust-lang"@, "rfcs"@),
                    ("rust-lang"@, "rust"@),
                    ("rust-lang"@, "wg-async"@),
                    ("rust-lang"@, "libs-team"@),
                ],
                queries: seq![
                    QueryMapV {
                        name: "p_critical"@,
                        kind: QueryKind::List,
                        query: QuerySpecV::Labelled {
                            filters: seq![("state"@, "open"@)],
                            include_labels: seq!["WG-async,A-async-await"@, "P-critical"@],
                            exclude_labels: seq![],
                        },
                    },
                    QueryMapV {
                        name: "untriaged"@,
                        kind: QueryKind::List,
                        query: QuerySpecV::Labelled {
                            filters: seq![("state"@, "open"@)],
                            include_labels: seq!["A-async-await"@],
                            exclude_labels: seq!["AsyncAwait-Triaged"@],
                        },
                    },
                    QueryMapV {
                        name: "nominated"@,
                        kind: QueryKind::List,
                        query: QuerySpecV::Labelled {
                            filters: seq![("state"@, "open"@)],
                            include_labels: seq!["I-async-nominated"@],
                            exclude_labels: seq![],
                        },
                    },
                    QueryMapV {
                        name: "nominated_for_others"@,
                        kind: QueryKind::List,
                        query: QuerySpecV::Labelled {
                            filters: seq![
                                ("state"@, "open"@),
                                ("label"@, "A-async-await,WG-async"@),
                                ("label"@, "I-lang-nominated,I-types-nominated"@),
                            ],
                            include_labels: seq![],
                            exclude_labels: seq![],
                        },
                    },
                    QueryMapV {
                        name: "waiting_on_team"@,
                        kind: QueryKind::List,
                        query: QuerySpecV::Labelled {
                            filters: seq![("state"@, "open"@)],
                            include_labels: seq!["WG-async"@, "S-waiting-on-team"@],
                            exclude_labels: seq![],
                        },
                    },
                    QueryMapV {
                        name: "proposed_fcp"@,
                        kind: QueryKind::List,
                        query: QuerySpecV::Labelled {
                            filters: seq![("state"@, "open"@)],
                            include_labels: seq!["WG-async"@, "proposed-final-comment-period"@],
                            exclude_labels: seq!["finished-final-comment-period"@],
                        },
                    },
                    QueryMapV {
                        name: "in_fcp"@,
                        kind: QueryKind::List,
                        query: QuerySpecV::Labelled {
                            filters: seq![("state"@, "open"@)],
                            include_labels: seq!["WG-async"@, "final-comment-period"@],
                            exclude_labels: seq!["finished-final-comment-period"@],
                        },
                    },
                    QueryMapV {
                        name: "finished_fcp"@,
                        kind: QueryKind::List,
                        query: QuerySpecV::Labelled {
                            filters: seq![("state"@, "open"@)],
                            include_labels: seq!["WG-async"@, "finished-final-comment-period"@],
                            exclude_labels: seq![],
                        },
                    },
                ],
            },
        ],
    }
}

pub fn async_triage() -> (r: Step)
    ensures
        r@ == async_triage_def(),
{
    let r = Step {
        name: "async_triage_agenda".to_string(),
        actions: vec![
            Query {
                repos: vec![("rust-lang".to_string(), "wg-async".to_string())],
                queries: vec![
                    QueryMap {
                        name: "pending_team_prs".to_string(),
                        kind: QueryKind::List,
                        query: QuerySpec::Labelled {
                            filters: vec![("state".to_string(), "open".to_string()), ("is".to_string(), "pull-request".to_string())],
                            include_labels: vec![],
                            exclude_labels: vec![],
                        },
                    },
                    QueryMap {
                        name: "scheduled_meetings".to_string(),
                        kind: QueryKind::List,
                        query: QuerySpec::DesignMeetings {
                            project_number: 40,
                            with_status: DesignMeetingStatus::Scheduled,
                        },
                    },
                    QueryMap {
                        name: "proposed_meetings".to_string(),
                        kind: QueryKind::List,
                        query: QuerySpec::DesignMeetings {
                            project_number: 40,
                            with_status: DesignMeetingStatus::Proposed,
                        },
                    },
                ],
            },
            Query {
                repos: vec![
                    ("rust-lang".to_string(), "rfcs".to_string()),
                    ("rust-lang".to_string(), "rust".to_string()),
                    ("rust-lang".to_string(), "wg-async".to_string()),
                    ("rust-lang".to_string(), "libs-team".to_string()),
                ],
                queries: vec![
                    QueryMap {
                        name: "p_critical".to_string(),
                        kind: QueryKind::List,
                        query: QuerySpec::Labelled {
                            filters: vec![("state".to_string(), "open".to_string())],
                            include_labels: vec!["WG-async,A-async-await".to_string(), "P-critical".to_string()],
                            exclude_labels: vec![],
                        },
                    },
                    QueryMap {
                        name: "untriaged".to_string(),
                        kind: QueryKind::List,
                        query: QuerySpec::Labelled {
                            filters: vec![("state".to_string(), "open".to_string())],
                            include_labels: vec!["A-async-await".to_string()],
                            exclude_labels: vec!["AsyncAwait-Triaged".to_string()],
                        },
                    },
                    QueryMap {
                        name: "nominated".to_string(),
                        kind: QueryKind::List,
                        query: QuerySpec::Labelled {
                            filters: vec![("state".to_string(), "open".to_string())],
                            include_labels: vec!["I-async-nominated".to_string()],
                            exclude_labels: vec![],
                        },
                    },
                    QueryMap {
                        name: "nominated_for_others".to_string(),
                        kind: QueryKind::List,
                        query: QuerySpec::Labelled {
                            filters: vec![
                                ("state".to_string(), "open".to_string()),
                                ("label".to_string(), "A-async-await,WG-async".to_string()),
                                ("label".to_string(), "I-lang-nominated,I-types-nominated".to_string()),
                            ],
                            include_labels: vec![],
                            exclude_labels: vec![],
                        },
                    },
                    QueryMap {
                        name: "waiting_on_team".to_string(),
                        kind: QueryKind::List,
                        query: QuerySpec::Labelled {
                            filters: vec![("state".to_string(), "open".to_string())],
                            include_labels: vec!["WG-async".to_string(), "S-waiting-on-team".to_string()],
                            exclude_labels: vec![],
                        },
                    },
                    QueryMap {
                        name: "proposed_fcp".to_string(),
                        kind: QueryKind::List,
                        query: QuerySpec::Labelled {
                            filters: vec![("state".to_string(), "open".to_string())],
                            include_labels: vec!["WG-async".to_string(), "proposed-final-comment-period".to_string()],
                            exclude_labels: vec!["finished-final-comment-period".to_string()],
                        },
                    },
                    QueryMap {
                        name: "in_fcp".to_string(),
                        kind: QueryKind::List,
                        query: QuerySpec::Labelled {
                            filters: vec![("state".to_string(), "open".to_string())],
                            include_labels: vec!["WG-async".to_string(), "final-comment-period".to_string()],
                            exclude_labels: vec!["finished-final-comment-period".to_string()],
                        },
                    },
                    QueryMap {
                        name: "finished_fcp".to_string(),
                        kind: QueryKind::List,
                        query: QuerySpec::Labelled {
                            filters: vec![("state".to_string(), "open".to_string())],
                            include_labels: vec!["WG-async".to_string(), "finished-final-comment-period".to_string()],
                            exclude_labels: vec![],
                        },
                    },
                ],
            },
        ],
    };
    proof {
        assert(r@ =~~= async_triage_def());
    }
    r
}

/// The whole report, as the contract's model.
pub open spec fn async_planning_def() -> StepV {
    StepV {
        name: "async_planning_agenda"@,
        actions: seq![QueryV {
            repos: seq![("rust-lang"@, "wg-async"@)],
            queries: seq![
                QueryMapV {
                    name: "scheduled_meetings"@,
                    kind: QueryKind::List,
                    query: QuerySpecV::DesignMeetings {
                        project_number: 40,
                        with_status: DesignMeetingStatus::Scheduled,
                    },
                },
                QueryMapV {
                    name: "proposed_meetings"@,
                    kind: QueryKind::List,
                    query: QuerySpecV::DesignMeetings {
                        project_number: 40,
                        with_status: DesignMeetingStatus::Proposed,
                    },
                },
            ],
        }],
    }
}

pub fn async_planning() -> (r: Step)
    ensures
        r@ == async_planning_def(),
{
    let r = Step {
        name: "async_planning_agenda".to_string(),
        actions: vec![Query {
            repos: vec![("rust-lang".to_string(), "wg-async".to_string())],
            queries: vec![
                QueryMap {
                    name: "scheduled_meetings".to_string(),
                    kind: QueryKind::List,
                    query: QuerySpec::DesignMeetings {
                        project_number: 40,
                        with_status: DesignMeetingStatus::Scheduled,
                    },
                },
                QueryMap {
                    name: "proposed_meetings".to_string(),
                    kind: QueryKind::List,
                    query: QuerySpec::DesignMeetings {
                        project_number: 40,
                        with_status: DesignMeetingStatus::Proposed,
                    },
                },
            ],
        }],
    };
    proof {
        assert(r@ =~~= async_planning_def());
    }
    r
}

/// The whole report, as the contract's model.
pub open spec fn async_design_def() -> StepV {
    StepV {
        name: "async_design_doc"@,
        actions: seq![],
    }
}

pub fn async_design() -> (r: Step)
    ensures
        r@ == async_design_def(),
{
    let r = Step {
        name: "async_design_doc".to_string(),
        actions: vec![],
    };
    proof {
        assert(r@ =~~= async_design_def());
    }
    r
}

/// The whole report, as the contract's model.
pub open spec fn async_reading_def() -> StepV {
    StepV {
        name: "async_reading_club"@,
        actions: seq![],
    }
}

pub fn async_reading() -> (r: Step)
    ensures
        r@ == async_reading_def(),
{
    let r = Step {
        name: "async_reading_club".to_string(),
        actions: vec![],
    };
    proof {
        assert(r@ =~~= async_reading_def());
    }
    r
}

/// The whole report, as the contract's model.
pub open spec fn ite_triage_def() -> StepV {
    StepV {
        name: "ite_triage_agenda"@,
        actions: seq![
            QueryV {
                repos: seq![("rust-lang"@, "impl-trait-initiative"@)],
                queries: seq![
                    QueryMapV {
                        name: "pending_team_prs"@,
                        kind: QueryKind::List,
                        query: QuerySpecV::Labelled {
                            filters: seq![("state"@, "open"@), ("is"@, "pull-request"@)],
                            include_labels: seq![],
                            exclude_labels: seq![],
                        },
                    },
                    QueryMapV {
                        name: "project_board_issues"@,
                        kind: QueryKind::List,
                        query: QuerySpecV::ProjectBoard {
                            project_number: 34,
                            with_status: StatusFilterV::DiffersOrUnset("Done"@),
                        },
                    },
                ],
            },
            QueryV {
                repos: seq![
                    ("rust-lang"@, "rfcs"@),
                    ("rust-lang"@, "rust"@),
                    ("rust-lang"@, "reference"@),
                    ("rust-lang"@, "impl-trait-initiative"@),
                ],
                queries: seq![QueryMapV {
                    name: "open_prs"@,
                    kind: QueryKind::List,
                    query: QuerySpecV::Labelled {
                        filters: seq![("state"@, "open"@), ("is"@, "pull-request"@)],
                        include_labels: seq!["A-impl-trait,F-async_fn_in_trait,F-return_position_impl_trait_in_trait,F-return_type_notation,F-type_alias_impl_trait"@],
                        exclude_labels: seq![],
                    },
                }],
            },
        ],
    }
}

pub fn ite_triage() -> (r: Step)
    ensures
        r@ == ite_triage_def(),
{
    let r = Step {
        name: "ite_triage_agenda".to_string(),
        actions: vec![
            Query {
                repos: vec![("rust-lang".to_string(), "impl-trait-initiative".to_string())],
                queries: vec![
                    QueryMap {
                        name: "pending_team_prs".to_string(),
                        kind: QueryKind::List,
                        query: QuerySpec::Labelled {
                            filters: vec![("state".to_string(), "open".to_string()), ("is".to_string(), "pull-request".to_string())],
                            include_labels: vec![],
                            exclude_labels: vec![],
                        },
                    },
                    QueryMap {
                        name: "project_board_issues".to_string(),
                        kind: QueryKind::List,
                        query: QuerySpec::ProjectBoard {
                            project_number: 34,
                            with_status: StatusFilter::DiffersOrUnset("Done".to_string()),
                        },
                    },
                ],
            },
            Query {
                repos: vec![
                    ("rust-lang".to_string(), "rfcs".to_string()),
                    ("rust-lang".to_string(), "rust".to_string()),
                    ("rust-lang".to_string(), "reference".to_string()),
                    ("rust-lang".to_string(), "impl-trait-initiative".to_string()),
                ],
                queries: vec![QueryMap {
                    name: "open_prs".to_string(),
                    kind: QueryKind::List,
                    query: QuerySpec::Labelled {
                        filters: vec![("state".to_string(), "open".to_string()), ("is".to_string(), "pull-request".to_string())],
                        include_labels: vec!["A-impl-trait,F-async_fn_in_trait,F-return_position_impl_trait_in_trait,F-return_type_notation,F-type_alias_impl_trait".to_string()],
                        exclude_labels: vec![],
                    },
                }],
            },
        ],
    };
    proof {
        assert(r@ =~~= ite_triage_def());
    }
    r
}

/// The whole report, as the contract's model.
pub open spec fn ite_design_def() -> StepV {
    StepV {
        name: "ite_design_doc"@,
        actions: seq![],
    }
}

pub fn ite_design() -> (r: Step)
    ensures
        r@ == ite_design_def(),
{
    let r = Step {
        name: "ite_design_doc".to_string(),
        actions: vec![],
    };
    proof {
        assert(r@ =~~= ite_design_def());
    }
    r
}

/// The whole report, as the contract's model.
pub open spec fn edition_triage_def() -> StepV {
    StepV {
        name: "edition_triage_agenda"@,
        actions: seq![
            QueryV {
                repos: seq![
                    ("rust-lang"@, "rfcs"@),
                    ("rust-lang"@, "rust"@),
                    ("rust-lang"@, "reference"@),
                    ("rust-lang"@, "edition-guide"@),
                ],
                queries: seq![QueryMapV {
                    name: "nominated"@,
                    kind: QueryKind::List,
                    query: QuerySpecV::Labelled {
                        filters: seq![("state"@, "open"@)],
                        include_labels: seq!["I-edition-nominated"@],
                        exclude_labels: seq![],
                    },
                }],
            },
            QueryV {
                repos: seq![("rust-lang"@, "rust"@)],
                queries: seq![QueryMapV {
                    name: "tracking"@,
                    kind: QueryKind::List,
                    query: QuerySpecV::Labelled {
                        filters: seq![("state"@, "open"@)],
                        include_labels: seq!["A-edition-2024"@, "C-tracking-issue"@],
                        exclude_labels: seq!["S-tracking-ready-to-stabilize"@, "T-style"@],
                    },
                }],
            },
            QueryV {
                repos: seq![("rust-lang"@, "rust"@)],
                queries: seq![QueryMapV {
                    name: "issues"@,
                    kind: QueryKind::List,
                    query: QuerySpecV::Labelled {
                        filters: seq![("state"@, "open"@), ("is"@, "issue"@)],
                        include_labels: seq!["A-edition-2024"@],
                        exclude_labels: seq!["C-tracking-issue"@, "T-style"@],
                    },
                }],
            },
        ],
    }
}

pub fn edition_triage() -> (r: Step)
    ensures
        r@ == edition_triage_def(),
{
    let r = Step {
        name: "edition_triage_agenda".to_string(),
        actions: vec![
            Query {
                repos: vec![
                    ("rust-lang".to_string(), "rfcs".to_string()),
                    ("rust-lang".to_string(), "rust".to_string()),
                    ("rust-lang".to_string(), "reference".to_string()),
                    ("rust-lang".to_string(), "edition-guide".to_string()),
                ],
                queries: vec![QueryMap {
                    name: "nominated".to_string(),
                    kind: QueryKind::List,
                    query: QuerySpec::Labelled {
                        filters: vec![("state".to_string(), "open".to_string())],
                        include_labels: vec!["I-edition-nominated".to_string()],
                        exclude_labels: vec![],
                    },
                }],
            },
            Query {
                repos: vec![("rust-lang".to_string(), "rust".to_string())],
                queries: vec![QueryMap {
                    name: "tracking".to_string(),
                    kind: QueryKind::List,
                    query: QuerySpec::Labelled {
                        filters: vec![("state".to_string(), "open".to_string())],
                        include_labels: vec!["A-edition-2024".to_string(), "C-tracking-issue".to_string()],
                        exclude_labels: vec!["S-tracking-ready-to-stabilize".to_string(), "T-style".to_string()],
                    },
                }],
            },
            Query {
                repos: vec![("rust-lang".to_string(), "rust".to_string())],
                queries: vec![QueryMap {
                    name: "issues".to_string(),
                    kind: QueryKind::List,
                    query: QuerySpec::Labelled {
                        filters: vec![("state".to_string(), "open".to_string()), ("is".to_string(), "issue".to_string())],
                        include_labels: vec!["A-edition-2024".to_string()],
                        exclude_labels: vec!["C-tracking-issue".to_string(), "T-style".to_string()],
                    },
                }],
            },
        ],
    };
    proof {
        assert(r@ =~~= edition_triage_def());
    }
    r
}

/// The whole report, as the contract's model.
pub open spec fn council_triage_def() -> StepV {
    StepV {
        name: "council_triage_agenda"@,
        actions: seq![
            QueryV {
                repos: seq![("rust-lang"@, "leadership-council"@)],
                queries: seq![
                    QueryMapV {
                        name: "pending_team_prs"@,
                        kind: QueryKind::List,
                        query: QuerySpecV::Labelled {
                            filters: seq![("state"@, "open"@), ("is"@, "pull-request"@)],
                            include_labels: seq![],
                            exclude_labels: seq![],
                        },
                    },
                    QueryMapV {
                        name: "p_high_issues"@,
                        kind: QueryKind::List,
                        query: QuerySpecV::Labelled {
                            filters: seq![("state"@, "open"@)],
                            include_labels: seq!["P-high"@],
                            exclude_labels: seq!["I-council-nominated"@],
                        },
                    },
                    QueryMapV {
                        name: "needs_decision_issues"@,
                        kind: QueryKind::List,
                        query: QuerySpecV::Labelled {
                            filters: seq![("state"@, "open"@)],
                            include_labels: seq!["S-needs-decision"@],
                            exclude_labels: seq!["I-council-nominated"@, "P-high"@],
                        },
                    },
                    QueryMapV {
                        name: "active_issues"@,
                        kind: QueryKind::List,
                        query: QuerySpecV::Labelled {
                            filters: seq![("state"@, "open"@)],
                            include_labels: seq!["S-active"@],
                            exclude_labels: seq![
                                "I-council-nominated"@,
                                "S-needs-decision"@,
                                "P-high"@,
                            ],
                        },
                    },
                ],
            },
            QueryV {
                repos: seq![
                    ("rust-lang"@, "leadership-council"@),
                    ("rust-lang"@, "rfcs"@),
                    ("rust-lang"@, "rust"@),
                ],
                queries: seq![QueryMapV {
                    name: "nominated_issues"@,
                    kind: QueryKind::List,
                    query: QuerySpecV::Labelled {
                        filters: seq![("state"@, "open"@)],
                        include_labels: seq!["I-council-nominated"@],
                        exclude_labels: seq![],
                    },
                }],
            },
        ],
    }
}

pub fn council_triage() -> (r: Step)
    ensures
        r@ == council_triage_def(),
{
    let r = Step {
        name: "council_triage_agenda".to_string(),
        actions: vec![
            Query {
                repos: vec![("rust-lang".to_string(), "leadership-council".to_string())],
                queries: vec![
                    QueryMap {
                        name: "pending_team_prs".to_string(),
                        kind: QueryKind::List,
                        query: QuerySpec::Labelled {
                            filters: vec![("state".to_string(), "open".to_string()), ("is".to_string(), "pull-request".to_string())],
                            include_labels: vec![],
                            exclude_labels: vec![],
                        },
                    },
                    QueryMap {
                        name: "p_high_issues".to_string(),
                        kind: QueryKind::List,
                        query: QuerySpec::Labelled {
                            filters: vec![("state".to_string(), "open".to_string())],
                            include_labels: vec!["P-high".to_string()],
                            exclude_labels: vec!["I-council-nominated".to_string()],
                        },
                    },
                    QueryMap {
                        name: "needs_decision_issues".to_string(),
                        kind: QueryKind::List,
                        query: QuerySpec::Labelled {
                            filters: vec![("state".to_string(), "open".to_string())],
                            include_labels: vec!["S-needs-decision".to_string()],
                            exclude_labels: vec!["I-council-nominated".to_string(), "P-high".to_string()],
                        },
                    },
                    QueryMap {
                        name: "active_issues".to_string(),
                        kind: QueryKind::List,
                        query: QuerySpec::Labelled {
                            filters: vec![("state".to_string(), "open".to_string())],
                            include_labels: vec!["S-active".to_string()],
                            exclude_labels: vec![
                                "I-council-nominated".to_string(),
                                "S-needs-decision".to_string(),
                                "P-high".to_string(),
                            ],
                        },
                    },
                ],
            },
            Query {
                repos: vec![
                    ("rust-lang".to_string(), "leadership-council".to_string()),
                    ("rust-lang".to_string(), "rfcs".to_string()),
                    ("rust-lang".to_string(), "rust".to_string()),
                ],
                queries: vec![QueryMap {
                    name: "nominated_issues".to_string(),
                    kind: QueryKind::List,
                    query: QuerySpec::Labelled {
                        filters: vec![("state".to_string(), "open".to_string())],
                        include_labels: vec!["I-council-nominated".to_string()],
                        exclude_labels: vec![],
                    },
                }],
            },
        ],
    };
    proof {
        assert(r@ =~~= council_triage_def());
    }
    r
}

/// The whole report, as the contract's model.
pub open spec fn compiler_backlog_bonanza_def() -> StepV {
    StepV {
        name: "compiler_backlog_bonanza"@,
        actions: seq![QueryV {
            repos: seq![("rust-lang"@, "rust"@)],
            queries: seq![QueryMapV {
                name: "tracking_issues"@,
                kind: QueryKind::List,
                query: QuerySpecV::Labelled {
                    filters: seq![("state"@, "open"@)],
                    include_labels: seq!["C-tracking-issue"@],
                    exclude_labels: seq!["T-libs-api"@, "T-libs"@, "T-lang"@, "T-rustdoc"@],
                },
            }],
        }],
    }
}

pub fn compiler_backlog_bonanza() -> (r: Step)
    ensures
        r@ == compiler_backlog_bonanza_def(),
{
    let r = Step {
        name: "compiler_backlog_bonanza".to_string(),
        actions: vec![Query {
            repos: vec![("rust-lang".to_string(), "rust".to_string())],
            queries: vec![QueryMap {
                name: "tracking_issues".to_string(),
                kind: QueryKind::List,
                query: QuerySpec::Labelled {
                    filters: vec![("state".to_string(), "open".to_string())],
                    include_labels: vec!["C-tracking-issue".to_string()],
                    exclude_labels: vec!["T-libs-api".to_string(), "T-libs".to_string(), "T-lang".to_string(), "T-rustdoc".to_string()],
                },
            }],
        }],
    };
    proof {
        assert(r@ =~~= compiler_backlog_bonanza_def());
    }
    r
}

} // verus!
