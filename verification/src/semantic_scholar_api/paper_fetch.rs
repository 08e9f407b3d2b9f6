//! Searches of the paper index, and the full record of one paper.

use vstd::prelude::*;
use crate::semantic_scholar_api::data::SemanticScholarApiRequest;
use crate::text::{decimal, push_decimal};

verus! {

/// A search of the index for papers.
#[derive(Debug, Clone, PartialEq)]
pub struct BulkRequest {
    pub query: String,
    pub min_citation_count: i32,
    pub publication_date_or_year: String,
}

/// The address that searches the index for `query` among the papers of
/// `publication_date_or_year` with at least `min_citation_count` citations,
/// the most cited first.
pub open spec fn bulk_url(query: Seq<char>, min_citation_count: int, publication_date_or_year: Seq<char>) -> Seq<
    char,
> {
    "https://api.semanticscholar.org/graph/v1/paper/search/bulk?query="@ + query
        + "&fields=paperId,corpusId,url,title,venue,year,authors,externalIds,abstract,referenceCount,citationCount,influentialCitationCount,isOpenAccess,openAccessPdf,fieldsOfStudy,s2FieldsOfStudy,publicationTypes,publicationDate,journal,citationStyles,authors&sort="@
        + "citationCount:desc"@ + "&minCitationCount="@ + decimal(min_citation_count)
        + "&minCitationCount="@ + decimal(min_citation_count) + "&publicationDateOrYear="@
        + publication_date_or_year
}

impl SemanticScholarApiRequest for BulkRequest {
    fn to_url(self) -> (url: String)
        ensures
            url@ == bulk_url(
                self.query@,
                self.min_citation_count as int,
                self.publication_date_or_year@,
            ),
    {
        let mut url = "https://api.semanticscholar.org/graph/v1/paper/search/bulk?query=".to_owned();
        url.append(self.query.as_str());
        url.append(
            "&fields=paperId,corpusId,url,title,venue,year,authors,externalIds,abstract,referenceCount,citationCount,influentialCitationCount,isOpenAccess,openAccessPdf,fieldsOfStudy,s2FieldsOfStudy,publicationTypes,publicationDate,journal,citationStyles,authors&sort=",
        );
        url.append("citationCount:desc");
        url.append("&minCitationCount=");
        push_decimal(&mut url, self.min_citation_count);
        url.append("&minCitationCount=");
        push_decimal(&mut url, self.min_citation_count);
        url.append("&publicationDateOrYear=");
        url.append(self.publication_date_or_year.as_str());
        url
    }
}

impl Default for BulkRequest {
    /// A search without words among the papers of 2023 with three citations
    /// or more.
    fn default() -> (request: BulkRequest)
        ensures
            request.query@ == Seq::<char>::empty(),
            request.min_citation_count == 3,
            request.publication_date_or_year@ == "2023"@,
    {
        BulkRequest {
            query: String::new(),
            min_citation_count: 3,
            publication_date_or_year: "2023".to_owned(),
        }
    }
}

/// The address that asks the index for the full record of the paper `paper_id`.
pub open spec fn detail_url(paper_id: Seq<char>) -> Seq<char> {
    "https://api.semanticscholar.org/graph/v1/paper/"@ + paper_id
        + "?fields=paperId,corpusId,url,title,venue,publicationVenue,year,authors,externalIds,abstract,referenceCount,citationCount,influentialCitationCount,isOpenAccess,openAccessPdf,fieldsOfStudy,s2FieldsOfStudy,publicationTypes,publicationDate,journal,citationStyles,embedding,tldr"@
}

/// The address that asks the index for the full record of the paper `paper_id`.
pub fn paper_detail_url(paper_id: &str) -> (url: String)
    ensures
        url@ == detail_url(paper_id@),
{
    let mut url = "https://api.semanticscholar.org/graph/v1/paper/".to_owned();
    url.append(paper_id);
    url.append(
        "?fields=paperId,corpusId,url,title,venue,publicationVenue,year,authors,externalIds,abstract,referenceCount,citationCount,influentialCitationCount,isOpenAccess,openAccessPdf,fieldsOfStudy,s2FieldsOfStudy,publicationTypes,publicationDate,journal,citationStyles,embedding,tldr",
    );
    url
}

} // verus!
