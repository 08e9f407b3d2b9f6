//! What is asked of the paper index, and what it answers.

pub mod data;
pub mod critions;
pub mod paper_fetch;
