//! Arguments of `alerts`.

use vstd::prelude::*;

verus! {

pub enum AlertsCommand {
    /// List alerts.
    List(ListArgs),
    /// Fetch a single alert by ID.
    Fetch(FetchArgs),
    /// Close alerts.
    Close(CloseArgs),
    /// Mark alerts as read.
    MarkRead { ids: Vec<String> },
    /// Mark alerts as unread.
    MarkUnread { ids: Vec<String> },
}

pub struct ListArgs {
    /// Maximum number of results (100 unless given).
    pub limit: Option<u64>,
    /// Number of results to skip.
    pub skip: Option<u64>,
    /// Fetch all results with auto-pagination.
    pub all: bool,
    /// Raw JSON filter.
    pub filter: Option<String>,
    /// Filter by severity: low, medium, high, informational.
    pub severity: Option<String>,
    /// Filter by resolution status.
    pub resolution: Option<String>,
    /// Show only open alerts.
    pub open: bool,
    /// Show only closed alerts.
    pub closed: bool,
    /// Full-text search query.
    pub query: Option<String>,
}

pub struct FetchArgs {
    /// Alert ID.
    pub id: String,
    /// Also fetch related activities.
    pub with_activities: bool,
}

pub struct CloseArgs {
    /// Alert IDs.
    pub ids: Vec<String>,
    /// Close type: benign, false-positive, true-positive.
    pub close_as: String,
    /// Comment for the closure.
    pub comment: Option<String>,
}

} // verus!
