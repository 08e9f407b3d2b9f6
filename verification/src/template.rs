//! What the pages show.

use vstd::prelude::*;

pub mod table;
pub mod search_page;
pub mod page_detail;

verus! {

/// The frame of every page.
#[derive(Debug, Clone, PartialEq)]
pub struct LayoutTemplate {}

} // verus!
