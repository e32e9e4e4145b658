//! Data model of the agenda engine: report definitions, fetched issues,
//! buckets and the rendering context.

use vstd::prelude::*;

verus! {

/// Result mode of a named query: either the issues themselves are kept
/// (`List`) or only how many there are (`Count`).
#[derive(Copy, Clone, Debug)]
pub enum QueryKind {
    List,
    Count,
}

/// Status of a design meeting proposal on a team's project board.
#[derive(Copy, Clone, Debug)]
pub enum DesignMeetingStatus {
    Proposed,
    Scheduled,
}

/// A filter on the status column of a project board item.  An item
/// without a status is always kept.
#[derive(Clone, Debug)]
pub enum StatusFilter {
    /// Keep items whose status equals the given one.
    EqualsOrUnset(String),
    /// Keep items whose status differs from the given one.
    DiffersOrUnset(String),
}

/// What to ask the issue tracker for one repository.  The engine never
/// interprets a query itself; it only hands it to the fetching host.
#[derive(Clone, Debug)]
pub enum QuerySpec {
    /// Issues selected by state filters and label inclusion/exclusion.
    Labelled {
        filters: Vec<(String, String)>,
        include_labels: Vec<String>,
        exclude_labels: Vec<String>,
    },
    /// The open pull requests that have waited longest for a review.
    LeastRecentlyReviewedPullRequests,
    /// The design meeting proposals with the given status on a team's
    /// project board.
    DesignMeetings { project_number: u64, with_status: DesignMeetingStatus },
    /// The items of a project board whose status passes the filter.
    ProjectBoard { project_number: u64, with_status: StatusFilter },
}

/// A query bound to the bucket it fills and the mode of that bucket.
#[derive(Clone, Debug)]
pub struct QueryMap {
    pub name: String,
    pub kind: QueryKind,
    pub query: QuerySpec,
}

/// One group of a report: a set of repositories crossed with a set of
/// named queries.
#[derive(Clone, Debug)]
pub struct Query {
    /// Repository references as (owner, name) pairs.
    pub repos: Vec<(String, String)>,
    pub queries: Vec<QueryMap>,
}

/// A report definition: a name (used to pick the template) and an ordered
/// list of query groups.
#[derive(Clone, Debug)]
pub struct Step {
    pub name: String,
    pub actions: Vec<Query>,
}

/// Mathematical model of a status filter.
#[verifier::ext_equal]
pub ghost enum StatusFilterV {
    EqualsOrUnset(Seq<char>),
    DiffersOrUnset(Seq<char>),
}

/// Mathematical model of a query.
#[verifier::ext_equal]
pub ghost enum QuerySpecV {
    Labelled {
        filters: Seq<(Seq<char>, Seq<char>)>,
        include_labels: Seq<Seq<char>>,
        exclude_labels: Seq<Seq<char>>,
    },
    LeastRecentlyReviewedPullRequests,
    DesignMeetings { project_number: u64, with_status: DesignMeetingStatus },
    ProjectBoard { project_number: u64, with_status: StatusFilterV },
}

/// Mathematical model of a named query.
#[verifier::ext_equal]
pub ghost struct QueryMapV {
    pub name: Seq<char>,
    pub kind: QueryKind,
    pub query: QuerySpecV,
}

/// Mathematical model of a query group.
#[verifier::ext_equal]
pub ghost struct QueryV {
    pub repos: Seq<(Seq<char>, Seq<char>)>,
    pub queries: Seq<QueryMapV>,
}

/// Mathematical model of a whole report definition.
#[verifier::ext_equal]
pub ghost struct StepV {
    pub name: Seq<char>,
    pub actions: Seq<QueryV>,
}

impl View for StatusFilter {
    type V = StatusFilterV;

    open spec fn view(&self) -> StatusFilterV {
        match self {
            StatusFilter::EqualsOrUnset(s) => StatusFilterV::EqualsOrUnset(s@),
            StatusFilter::DiffersOrUnset(s) => StatusFilterV::DiffersOrUnset(s@),
        }
    }
}

impl View for QuerySpec {
    type V = QuerySpecV;

    open spec fn view(&self) -> QuerySpecV {
        match self {
            QuerySpec::Labelled { filters, include_labels, exclude_labels } => {
                QuerySpecV::Labelled {
                    filters: filters@.map_values(|p: (String, String)| (p.0@, p.1@)),
                    include_labels: include_labels@.map_values(|s: String| s@),
                    exclude_labels: exclude_labels@.map_values(|s: String| s@),
                }
            },
            QuerySpec::LeastRecentlyReviewedPullRequests => {
                QuerySpecV::LeastRecentlyReviewedPullRequests
            },
            QuerySpec::DesignMeetings { project_number, with_status } => {
                QuerySpecV::DesignMeetings {
                    project_number: *project_number,
                    with_status: *with_status,
                }
            },
            QuerySpec::ProjectBoard { project_number, with_status } => {
                QuerySpecV::ProjectBoard {
                    project_number: *project_number,
                    with_status: with_status@,
                }
            },
        }
    }
}

impl View for QueryMap {
    type V = QueryMapV;

    open spec fn view(&self) -> QueryMapV {
        QueryMapV { name: self.name@, kind: self.kind, query: self.query@ }
    }
}

impl View for Query {
    type V = QueryV;

    open spec fn view(&self) -> QueryV {
        QueryV {
            repos: self.repos@.map_values(|p: (String, String)| (p.0@, p.1@)),
            queries: self.queries@.map_values(|q: QueryMap| q@),
        }
    }
}

impl View for Step {
    type V = StepV;

    open spec fn view(&self) -> StepV {
        StepV { name: self.name@, actions: self.actions@.map_values(|g: Query| g@) }
    }
}

/// One issue as consumed by the renderer.
#[derive(Clone, Debug)]
pub struct IssueDecorator {
    pub number: u64,
    pub title: String,
    pub html_url: String,
    pub repo_name: String,
    pub labels: String,
    pub assignees: String,
    /// Human readable relative timestamp.
    pub updated_at_hts: String,
    pub narrative: Option<String>,
    pub drag: Option<u8>,
    pub fcp_details: Option<FCPDetails>,
    pub meeting_details: Option<MeetingDetails>,
}

#[derive(Clone, Debug)]
pub struct FCPDetails {
    pub bot_tracking_comment_html_url: String,
    pub bot_tracking_comment_content: String,
    pub initiating_comment_html_url: String,
    pub initiating_comment_content: String,
}

#[derive(Clone, Debug)]
pub struct MeetingDetails {
    pub date: Option<String>,
}

/// A scheduled meeting, as delivered by the meetings provider.
#[derive(Clone, Debug)]
pub struct Meeting {
    pub title: String,
    pub url: String,
    pub date: String,
}

/// The value of one named bucket after aggregation.
#[derive(Clone, Debug)]
pub enum Bucket {
    Issues(Vec<IssueDecorator>),
    Count(u64),
}

/// What one completed fetch task hands back: the bucket it feeds, the
/// bucket's mode, and the issues that came back.
#[derive(Clone, Debug)]
pub struct QueryResult {
    pub name: String,
    pub kind: QueryKind,
    pub issues: Vec<IssueDecorator>,
}

/// The error kinds of one run.  A fetch or task failure aborts the run;
/// a meetings failure is tolerated upstream and never reaches this type;
/// a render failure is reported by the host.
#[derive(Clone, Debug)]
pub enum AgendaError {
    Fetch(String),
    Task(String),
    Render(String),
}

/// The flat rendering context of one run: the aggregated buckets plus the
/// two fixed entries (current date and upcoming meetings), together with
/// the report name that selects the template.
#[derive(Clone, Debug)]
pub struct AgendaContext {
    pub report_name: String,
    /// Bucket name / bucket value pairs; names are unique.
    pub buckets: Vec<(String, Bucket)>,
    pub current_date: String,
    pub meetings: Vec<Meeting>,
}

/// How old an issue update is, in renderer terms.
#[derive(Copy, Clone, Debug)]
pub enum RelativeAge {
    MonthsAgo(i64),
    AboutDaysAgo(i64),
}

/// Classifies an age given in whole days the way the agenda shows it:
/// anything beyond sixty days is reported in months, everything else in
/// days.
pub fn describe_age(days: i64) -> (r: RelativeAge)
    ensures
        days > 60 ==> (r matches RelativeAge::MonthsAgo(m) && m == days / 30),
        days <= 60 ==> r == RelativeAge::AboutDaysAgo(days),
{
    if days > 60 {
        let months: u64 = (days as u64) / 30;
        assert(months == days / 30);
        RelativeAge::MonthsAgo(months as i64)
    } else {
        RelativeAge::AboutDaysAgo(days)
    }
}

} // verus!
