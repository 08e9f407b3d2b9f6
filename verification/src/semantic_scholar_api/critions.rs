//! The papers that cite a paper, and those that it cites.

use vstd::prelude::*;
use crate::semantic_scholar_api::data::{Paper, SemanticScholarApiRequest};
use crate::text::{decimal, push_decimal};

verus! {

/// One page of the papers that cite a paper, or that it cites.
#[derive(Default, Debug, Clone, PartialEq)]
pub struct CitingResponse {
    pub offset: Option<i32>,
    pub next: Option<i32>,
    pub data: Option<Vec<CitingDaum>>,
}

/// A citation: the citing paper, and where and why it cites.
#[derive(Default, Debug, Clone, PartialEq)]
pub struct CitingDaum {
    pub contexts: Vec<String>,
    pub intents: Vec<String>,
    pub is_influential: bool,
    pub citing_paper: Paper,
}

/// A request for one page of the citations of a paper.
#[derive(Debug, Clone, PartialEq)]
pub struct CitingRequest {
    pub paper_id: String,
    pub offset: i32,
    pub limit: i32,
}

/// The address that asks for the citations of the paper `paper_id`, from
/// `offset` on and at most `limit` of them.
pub open spec fn citing_url(paper_id: Seq<char>, offset: int, limit: int) -> Seq<char> {
    "https://api.semanticscholar.org/graph/v1/paper/"@ + paper_id + "/citations?offset="@ + decimal(
        offset,
    ) + "&limit="@ + decimal(limit)
        + "&fields=contexts,intents,isInfluential,paperId,corpusId,url,title,venue,publicationVenue,year,authors,externalIds,abstract,referenceCount,citationCount,influentialCitationCount,isOpenAccess,openAccessPdf,fieldsOfStudy,s2FieldsOfStudy,publicationTypes,publicationDate,journal,citationStyles"@
}

impl SemanticScholarApiRequest for CitingRequest {
    fn to_url(self) -> (url: String)
        ensures
            url@ == citing_url(self.paper_id@, self.offset as int, self.limit as int),
    {
        let mut url = "https://api.semanticscholar.org/graph/v1/paper/".to_owned();
        url.append(self.paper_id.as_str());
        url.append("/citations?offset=");
        push_decimal(&mut url, self.offset);
        url.append("&limit=");
        push_decimal(&mut url, self.limit);
        url.append(
            "&fields=contexts,intents,isInfluential,paperId,corpusId,url,title,venue,publicationVenue,year,authors,externalIds,abstract,referenceCount,citationCount,influentialCitationCount,isOpenAccess,openAccessPdf,fieldsOfStudy,s2FieldsOfStudy,publicationTypes,publicationDate,journal,citationStyles",
        );
        url
    }
}

impl Default for CitingRequest {
    /// The first hundred citations of a paper that is yet to be named.
    fn default() -> (request: CitingRequest)
        ensures
            request.paper_id@ == Seq::<char>::empty(),
            request.offset == 0,
            request.limit == 100,
    {
        CitingRequest { paper_id: String::new(), offset: 0, limit: 100 }
    }
}

} // verus!
