//! The page of a search and the part of it that a new search replaces.

use vstd::prelude::*;
use crate::template::table::TableRowTemplate;

verus! {

/// The page of a search: how many papers were found, and a row for each listed.
#[derive(Debug, Clone, PartialEq)]
pub struct SearchPageLayoutTemplate {
    pub total_count: i32,
    pub rows: Vec<TableRowTemplate>,
}

/// The result of a search within the page: the query, a row for each paper
/// listed, and how many were found.
#[derive(Debug, Clone, PartialEq)]
pub struct SearchResultTemplate {
    pub query: String,
    pub rows: Vec<TableRowTemplate>,
    pub total_count: i32,
}

} // verus!
