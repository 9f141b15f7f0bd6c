//! Arguments of `files`.

use vstd::prelude::*;

verus! {

pub enum FilesCommand {
    /// List files.
    List(ListArgs),
    /// Fetch a single file by ID.
    Fetch { id: String },
}

pub struct ListArgs {
    /// Maximum number of results (100 unless given).
    pub limit: Option<u64>,
    /// Number of results to skip.
    pub skip: Option<u64>,
    /// Fetch all results with auto-pagination.
    pub all: bool,
    /// Raw JSON filter.
    pub filter: Option<String>,
    /// Filter by service app ID.
    pub service: Option<i64>,
    /// Filter by file type.
    pub filetype: Option<String>,
    /// Filter by file name.
    pub filename: Option<String>,
    /// Filter by file extension.
    pub extension: Option<String>,
    /// Filter by sharing level.
    pub sharing: Option<String>,
}

} // verus!
