//! What the handlers of the pages and of the API compute between the
//! requests that come in and the calls that go out.

use vstd::prelude::*;
use crate::semantic_scholar_api::critions::{CitingDaum, CitingRequest, CitingResponse};
use crate::semantic_scholar_api::data::{Paper, PaperDetail};
use crate::semantic_scholar_api::paper_fetch::BulkRequest;
use crate::status::PdfFileStatus;
use crate::template::page_detail::{CitingListResponse, CitingListRowTemplate};
use crate::template::search_page::{SearchPageLayoutTemplate, SearchResultTemplate};
use crate::template::table::{
    pdf_is_complete, PaperDetailTemplate, PaperDetailTemplateDetailPrint, TableRowTemplate,
};

verus! {

/// A request to fetch the PDF of a paper.
#[derive(Debug, Clone, PartialEq)]
pub struct PaperCloneRequest {
    pub paper_id: String,
    pub doi: String,
    pub url: String,
}

/// The answer to a [`PaperCloneRequest`]: the label of the paper's status.
#[derive(Debug, Clone, PartialEq)]
pub struct PaperCloneResponse {
    pub status: String,
}

/// A request to bookmark a paper.
#[derive(Debug, Clone, PartialEq)]
pub struct PaperBookmarkRequest {
    pub doi: String,
    pub url: String,
}

/// The answer to a [`PaperBookmarkRequest`].
#[derive(Debug, Clone, PartialEq)]
pub struct PaperBookmarkResponse {
    pub status: String,
}

impl PaperCloneResponse {
    /// The answer that reports `status`.
    pub fn new(status: PdfFileStatus) -> (response: PaperCloneResponse)
        ensures
            response.status@ == status.label(),
    {
        PaperCloneResponse { status: status.to_string() }
    }
}

impl PaperBookmarkResponse {
    /// The answer to every bookmark request: an empty status.
    pub fn new() -> (response: PaperBookmarkResponse)
        ensures
            response.status@ == Seq::<char>::empty(),
    {
        PaperBookmarkResponse { status: String::new() }
    }
}

/// The search that fills the first page: the papers on "AI ML NLP" from
/// 2019 on with three citations or more.
pub fn index_request() -> (request: BulkRequest)
    ensures
        request.query@ == "AI ML NLP"@,
        request.publication_date_or_year@ == "2019:"@,
        request.min_citation_count == 3,
{
    BulkRequest {
        query: "AI ML NLP".to_owned(),
        publication_date_or_year: "2019:".to_owned(),
        min_citation_count: 3,
    }
}

/// The search that a filled form asks for, with three citations or more.
pub fn search_request(query: &str, publication_date_or_year: &str) -> (request: BulkRequest)
    ensures
        request.query@ == query@,
        request.publication_date_or_year@ == publication_date_or_year@,
        request.min_citation_count == 3,
{
    let defaults = BulkRequest::default();
    BulkRequest {
        query: query.to_owned(),
        publication_date_or_year: publication_date_or_year.to_owned(),
        min_citation_count: defaults.min_citation_count,
    }
}

/// Whether `rows` are the rows of `papers`, one for one and in order.
pub open spec fn rows_show(rows: Seq<TableRowTemplate>, papers: Seq<Paper>) -> bool {
    &&& rows.len() == papers.len()
    &&& forall|i: int| 0 <= i < rows.len() ==> (#[trigger] rows[i]).shows(papers[i])
}

/// The rows of a list of papers, one for one and in order.
pub fn table_rows(papers: Vec<Paper>) -> (rows: Vec<TableRowTemplate>)
    ensures
        rows_show(rows@, papers@),
{
    let ghost all = papers@;
    let mut rows: Vec<TableRowTemplate> = Vec::new();
    for paper in it: papers
        invariant
            it.seq() == all,
            rows@.len() == it.index(),
            forall|i: int| 0 <= i < rows@.len() ==> (#[trigger] rows@[i]).shows(all[i]),
    {
        rows.push(TableRowTemplate::from(paper));
    }
    rows
}

/// The first page for a search that found `total` papers and lists `papers`.
pub fn search_page(total: i32, papers: Vec<Paper>) -> (page: SearchPageLayoutTemplate)
    ensures
        page.total_count == total,
        rows_show(page.rows@, papers@),
{
    SearchPageLayoutTemplate { total_count: total, rows: table_rows(papers) }
}

/// The result of the search `query` that found `total` papers and lists `papers`.
pub fn search_result(query: String, total: i32, papers: Vec<Paper>) -> (result: SearchResultTemplate)
    ensures
        result.query == query,
        result.total_count == total,
        rows_show(result.rows@, papers@),
{
    SearchResultTemplate { query, total_count: total, rows: table_rows(papers) }
}

/// The page of the paper `paper_id` with the full record `paper`, of which
/// nothing has been fetched yet.
pub fn detail_page(paper_id: &str, paper: PaperDetail) -> (page: PaperDetailTemplate)
    requires
        pdf_is_complete(paper.open_access_pdf),
    ensures
        page.paper_id@ == paper_id@,
        !page.fetched,
        page.paper_detail.shows(paper),
{
    PaperDetailTemplate {
        paper_id: paper_id.to_owned(),
        fetched: false,
        paper_detail: PaperDetailTemplateDetailPrint::from(paper),
    }
}

/// The request for the first hundred citations of the paper `paper_id`.
pub fn citing_request(paper_id: &str) -> (request: CitingRequest)
    ensures
        request.paper_id@ == paper_id@,
        request.offset == 0,
        request.limit == 100,
{
    let defaults = CitingRequest::default();
    CitingRequest { paper_id: paper_id.to_owned(), offset: defaults.offset, limit: defaults.limit }
}

/// Whether every citation of a list comes with the authors of its paper.
pub open spec fn all_with_authors(data: Seq<CitingDaum>) -> bool {
    forall|i: int| 0 <= i < data.len() ==> (#[trigger] data[i]).citing_paper.authors is Some
}

/// Whether `rows` are the rows of the citations `data`, one for one and in order.
pub open spec fn citing_rows_show(rows: Seq<CitingListRowTemplate>, data: Seq<CitingDaum>) -> bool {
    &&& rows.len() == data.len()
    &&& forall|i: int| 0 <= i < rows.len() ==> (#[trigger] rows[i]).shows(data[i])
}

/// The rows of a list of citations, one for one and in order.
pub fn citing_rows(data: Vec<CitingDaum>) -> (rows: Vec<CitingListRowTemplate>)
    requires
        all_with_authors(data@),
    ensures
        citing_rows_show(rows@, data@),
{
    let ghost all = data@;
    let mut rows: Vec<CitingListRowTemplate> = Vec::new();
    for daum in it: data
        invariant
            it.seq() == all,
            all_with_authors(all),
            rows@.len() == it.index(),
            forall|i: int| 0 <= i < rows@.len() ==> (#[trigger] rows@[i]).shows(all[i]),
    {
        assert(daum == all[it.index() as int]);
        rows.push(CitingListRowTemplate::from(daum));
    }
    rows
}

/// The table named `table_id` for one page of citations. The page must
/// come with its citations, and each of them with the authors of its paper.
pub fn citing_list(table_id: &str, paper: CitingResponse) -> (list: CitingListResponse)
    requires
        paper.data is Some,
        all_with_authors(paper.data->0@),
    ensures
        list.table_id@ == table_id@,
        list.offset == paper.offset,
        list.next == paper.next,
        citing_rows_show(list.rows@, paper.data->0@),
{
    let rows = match paper.data {
        Some(data) => citing_rows(data),
        None => Vec::new(),
    };
    CitingListResponse { table_id: table_id.to_owned(), offset: paper.offset, next: paper.next, rows }
}

/// The table of what a paper cites, for one page of its references.
pub fn references_list(paper: CitingResponse) -> (list: CitingListResponse)
    requires
        paper.data is Some,
        all_with_authors(paper.data->0@),
    ensures
        list.table_id@ == "reference-accordion-collapse-body"@,
        list.offset == paper.offset,
        list.next == paper.next,
        citing_rows_show(list.rows@, paper.data->0@),
{
    citing_list("reference-accordion-collapse-body", paper)
}

/// The table of what cites a paper, for one page of its citations.
pub fn citations_list(paper: CitingResponse) -> (list: CitingListResponse)
    requires
        paper.data is Some,
        all_with_authors(paper.data->0@),
    ensures
        list.table_id@ == "citation-accordion-collapse-body"@,
        list.offset == paper.offset,
        list.next == paper.next,
        citing_rows_show(list.rows@, paper.data->0@),
{
    citing_list("citation-accordion-collapse-body", paper)
}

} // verus!
