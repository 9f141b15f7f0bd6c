//! Arguments of `entities`.

use vstd::prelude::*;

verus! {

pub enum EntitiesCommand {
    /// List entities.
    List(ListArgs),
    /// Fetch a single entity by ID.
    Fetch { id: String },
    /// Fetch an entity tree by ID.
    FetchTree { id: String },
}

pub struct ListArgs {
    /// Maximum number of results (100 unless given).
    pub limit: Option<u64>,
    /// Number of results to skip.
    pub skip: Option<u64>,
    /// Fetch all results with auto-pagination.
    pub all: bool,
    /// Raw JSON filter.
    pub filter: Option<String>,
    /// Filter by entity type.
    pub entity_type: Option<String>,
    /// Filter admin entities only.
    pub is_admin: bool,
    /// Filter external entities only.
    pub is_external: bool,
    /// Filter by domain.
    pub domain: Option<String>,
    /// Filter by status.
    pub status: Option<String>,
}

} // verus!
