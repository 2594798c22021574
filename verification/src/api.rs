//! The REST surface's data shapes, grouped by endpoint family.

pub mod analysis;
pub mod documents;

use vstd::prelude::*;

verus! {

/// One chat exchange's answer.
#[derive(Debug, PartialEq)]
pub struct ChatResponse {
    pub message: String,
    pub session_id: String,
}

/// Filters of a case-law search.
#[derive(Debug, PartialEq)]
pub struct SearchFilters {
    pub jurisdiction: Option<String>,
    pub date_range: Option<String>,
    pub limit: usize,
}

} // verus!
