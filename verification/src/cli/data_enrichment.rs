//! Arguments of `data-enrichment`.

use vstd::prelude::*;

verus! {

pub enum DataEnrichmentCommand {
    /// List IP address ranges.
    List(ListArgs),
    /// Create a new IP address range.
    Create(CreateArgs),
    /// Update an existing IP address range.
    Update(UpdateArgs),
    /// Delete an IP address range.
    Delete { id: String },
}

pub struct ListArgs {
    /// Maximum number of results (100 unless given).
    pub limit: Option<u64>,
    /// Number of results to skip.
    pub skip: Option<u64>,
    /// Fetch all results with auto-pagination.
    pub all: bool,
    /// Raw JSON filter.
    pub filter: Option<String>,
    /// Filter by category.
    pub category: Option<String>,
    /// Filter by tag ID.
    pub tag: Option<String>,
    /// Show only built-in ranges.
    pub builtin: bool,
    /// Show only custom ranges.
    pub custom: bool,
}

pub struct CreateArgs {
    /// Name of the IP range.
    pub name: String,
    /// Comma-separated list of subnets.
    pub subnets: String,
    /// Category.
    pub category: String,
    /// Registered ISP / organization.
    pub organization: Option<String>,
    /// Comma-separated list of tag IDs.
    pub tags: Option<String>,
}

pub struct UpdateArgs {
    /// IP range ID.
    pub id: String,
    /// Name of the IP range.
    pub name: Option<String>,
    /// Comma-separated list of subnets.
    pub subnets: Option<String>,
    /// Category.
    pub category: Option<String>,
    /// Registered ISP / organization.
    pub organization: Option<String>,
}

} // verus!
