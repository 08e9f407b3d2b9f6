//! The records of the paper index.

use vstd::prelude::*;

verus! {

/// A paper as a search of the index lists it.
#[derive(Default, Debug, Clone, PartialEq)]
pub struct Paper {
    pub paper_id: Option<String>,
    pub external_ids: Option<ExternalIds>,
    pub corpus_id: Option<i32>,
    pub publication_venue: Option<PublicationVenue>,
    pub url: Option<String>,
    pub title: String,
    pub abstract_field: Option<String>,
    pub venue: Option<String>,
    pub year: Option<i32>,
    pub reference_count: Option<i32>,
    pub citation_count: Option<i32>,
    pub influential_citation_count: Option<i32>,
    pub is_open_access: Option<bool>,
    pub open_access_pdf: Option<OpenAccessPdf>,
    pub fields_of_study: Option<Vec<String>>,
    pub s2fields_of_study: Option<Vec<S2FieldsOfStudy>>,
    pub publication_types: Option<Vec<String>>,
    pub publication_date: Option<String>,
    pub journal: Option<Journal>,
    pub citation_styles: Option<CitationStyles>,
    pub authors: Option<Vec<Author>>,
}

/// The identifiers of a paper in other catalogues.
#[derive(Default, Debug, Clone, PartialEq)]
pub struct ExternalIds {
    pub ar_xiv: Option<String>,
    pub dblp: Option<String>,
    pub doi: Option<String>,
    pub corpus_id: Option<i32>,
    pub pub_med_central: Option<String>,
    pub pub_med: Option<String>,
    pub mag: Option<String>,
}

/// Where the PDF of an open-access paper can be had.
#[derive(Default, Debug, Clone, PartialEq)]
pub struct OpenAccessPdf {
    pub url: Option<String>,
    pub status: Option<String>,
}

/// A field of study with the source that assigned it.
#[derive(Default, Debug, Clone, PartialEq)]
pub struct S2FieldsOfStudy {
    pub category: Option<String>,
    pub source: Option<String>,
}

/// The journal in which a paper appeared.
#[derive(Default, Debug, Clone, PartialEq)]
pub struct Journal {
    pub name: Option<String>,
    pub volume: Option<String>,
    pub pages: Option<String>,
}

/// A paper as bibliographies cite it.
#[derive(Default, Debug, Clone, PartialEq)]
pub struct CitationStyles {
    pub bibtex: String,
}

/// An author of a paper.
#[derive(Default, Debug, Clone, PartialEq)]
pub struct Author {
    pub author_id: Option<String>,
    pub name: String,
}

/// The venue in which a paper was published.
#[derive(Default, Debug, Clone, PartialEq)]
pub struct PublicationVenue {
    pub id: String,
    pub name: String,
    pub alternate_names: Option<Vec<String>>,
    pub issn: Option<String>,
    pub url: Option<String>,
    pub type_field: Option<String>,
    pub alternate_urls: Option<Vec<String>>,
}

/// A request that is sent to the paper index as an address.
pub trait SemanticScholarApiRequest {
    /// The address that asks the index what this request asks.
    fn to_url(self) -> String;
}

/// A paper as the index describes it in full.
#[derive(Default, Debug, Clone, PartialEq)]
pub struct PaperDetail {
    pub paper_id: String,
    pub corpus_id: Option<i32>,
    pub external_ids: Option<ExternalIds>,
    pub url: Option<String>,
    pub title: String,
    pub abstract_field: Option<String>,
    pub venue: Option<String>,
    pub publication_venue: Option<PublicationVenue>,
    pub year: i32,
    pub reference_count: i32,
    pub citation_count: i32,
    pub influential_citation_count: i32,
    pub is_open_access: bool,
    pub open_access_pdf: Option<OpenAccessPdf>,
    pub fields_of_study: Vec<String>,
    pub s2fields_of_study: Option<Vec<S2FieldsOfStudy>>,
    pub publication_types: Option<Vec<String>>,
    pub publication_date: Option<String>,
    pub journal: Option<Journal>,
    pub citation_styles: Option<CitationStyles>,
    pub authors: Vec<Author>,
    pub citations: Option<Vec<CitationShort>>,
    pub references: Option<Vec<CitationShort>>,
    pub tldr: Option<Tldr>,
}

/// A summary of a paper in a sentence, with the model that wrote it.
#[derive(Default, Debug, Clone, PartialEq)]
pub struct Tldr {
    pub model: String,
    pub text: String,
}

/// A paper that cites or is cited, by identifier and title.
#[derive(Default, Debug, Clone, PartialEq)]
pub struct CitationShort {
    pub paper_id: String,
    pub title: String,
}

} // verus!
