//! Document acquisition and text extraction for a paper library: the status
//! kept for each document, where a fetched PDF is stored and whether it is
//! one, and the text shown by the content streams of its pages.

pub mod text;
pub mod status;
pub mod store;
pub mod content;
pub mod fonts;
pub mod decoder;
pub mod paper_path;
pub mod fetch;
pub mod pipeline;
pub mod semantic_scholar_api;
pub mod template;
pub mod api;
