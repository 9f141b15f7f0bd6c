//! The API's data: its enums, request filters and list responses.

pub mod alert;
pub mod data_enrichment;
pub mod entity;
pub mod file;
pub mod filter;

use vstd::prelude::*;

verus! {

/// A page of a list response: the items, whether another page follows, and
/// the total when the API reports one.
pub struct ListResponse<T> {
    pub total: Option<i64>,
    pub has_next: bool,
    pub data: Vec<T>,
}

} // verus!
