//! Arguments of `activities`.

use vstd::prelude::*;

verus! {

pub enum ActivitiesCommand {
    /// List activities.
    List(ListArgs),
    /// Fetch a single activity by ID.
    Fetch { id: String },
}

pub struct ListArgs {
    /// Maximum number of results (100 unless given).
    pub limit: Option<u64>,
    /// Number of results to skip.
    pub skip: Option<u64>,
    /// Fetch all results with auto-pagination.
    pub all: bool,
    /// Raw JSON filter.
    pub filter: Option<String>,
    /// Filter by username.
    pub user: Option<String>,
    /// Filter by IP address.
    pub ip: Option<String>,
    /// Filter by country code.
    pub country: Option<String>,
    /// Full-text search query.
    pub query: Option<String>,
}

} // verus!
