//! The papers that cite a paper or that it cites, as rows of a table.

use vstd::prelude::*;
use crate::semantic_scholar_api::critions::CitingDaum;
use crate::template::table::{author_names, authors_line, number_or_zero, show_ids, shown_ids};
use crate::text::{decimal, decimal_string, joined, string_or_empty, text_or_empty};

verus! {

/// One page of citations as a table.
#[derive(Default, Debug, Clone, PartialEq)]
pub struct CitingListResponse {
    pub table_id: String,
    pub offset: Option<i32>,
    pub next: Option<i32>,
    pub rows: Vec<CitingListRowTemplate>,
}

/// A citation as a row of a table: the citing paper, and where and why it cites.
#[derive(Default, Debug, Clone, PartialEq)]
pub struct CitingListRowTemplate {
    pub contexts: Vec<String>,
    pub intents: Vec<String>,
    pub is_influential: bool,
    pub paper_id: String,
    pub external_id: String,
    pub title: String,
    pub authors: String,
    pub keywords: String,
    pub abstract_content: String,
    pub year: String,
    pub venue: String,
    pub is_open_access: bool,
    pub citation_count: i32,
    pub reference_count: i32,
}

impl CitingListRowTemplate {
    /// Whether this row shows the citation `x`.
    pub open spec fn shows(self, x: CitingDaum) -> bool {
        &&& self.contexts == x.contexts
        &&& self.intents == x.intents
        &&& self.is_influential == x.is_influential
        &&& self.paper_id@ == text_or_empty(x.citing_paper.paper_id)
        &&& self.external_id@ == shown_ids(x.citing_paper.external_ids)
        &&& self.title@ == x.citing_paper.title@
        &&& self.authors@ == joined(author_names(x.citing_paper.authors->0@), ", "@)
        &&& self.keywords@ == Seq::<char>::empty()
        &&& self.abstract_content@ == text_or_empty(x.citing_paper.abstract_field)
        &&& self.year@ == decimal(number_or_zero(x.citing_paper.year))
        &&& self.venue@ == text_or_empty(x.citing_paper.venue)
        &&& self.is_open_access == (x.citing_paper.is_open_access == Some(true))
        &&& self.citation_count == number_or_zero(x.citing_paper.citation_count)
        &&& self.reference_count == number_or_zero(x.citing_paper.reference_count)
    }

    /// The row of a citation. The citing paper must come with its authors;
    /// what else it lacks shows as in the row of a paper.
    pub fn from(x: CitingDaum) -> (row: CitingListRowTemplate)
        requires
            x.citing_paper.authors is Some,
        ensures
            row.shows(x),
    {
        let paper = x.citing_paper;
        let authors = match &paper.authors {
            Some(authors) => authors_line(authors.as_slice()),
            None => String::new(),
        };
        CitingListRowTemplate {
            contexts: x.contexts,
            intents: x.intents,
            is_influential: x.is_influential,
            paper_id: string_or_empty(paper.paper_id),
            title: paper.title,
            external_id: show_ids(paper.external_ids),
            authors,
            keywords: String::new(),
            abstract_content: string_or_empty(paper.abstract_field),
            year: decimal_string(
                match paper.year {
                    Some(year) => year,
                    None => 0,
                },
            ),
            venue: string_or_empty(paper.venue),
            is_open_access: match paper.is_open_access {
                Some(open) => open,
                None => false,
            },
            citation_count: match paper.citation_count {
                Some(n) => n,
                None => 0,
            },
            reference_count: match paper.reference_count {
                Some(n) => n,
                None => 0,
            },
        }
    }
}

} // verus!
