//! Fetching the PDF of a document: what to ask for, what to store, and
//! whether what came back is a PDF.

use vstd::prelude::*;
use vstd::utf8::*;
use crate::paper_path::{path_of, pdf_directory, pdf_file_path};
use crate::text::{chars_of, contains_chars, occurs_in, str_from_utf8};

verus! {

/// Why a fetch failed.
#[derive(Debug, Clone, Copy, PartialEq, Eq, Structural)]
pub enum FetchError {
    /// The request did not bring a body, or the server answered it with a
    /// status other than success.
    Transport,
    /// The body is a page of HTML where a PDF was expected.
    NotAPdf,
}

/// What a server is asked, and where its answer is stored.
#[derive(Debug)]
pub struct FetchRequest {
    /// The address asked with GET.
    pub url: String,
    /// The `User-Agent` header sent along.
    pub user_agent: String,
    /// Whether the session keeps the cookies it is given.
    pub cookie_store: bool,
    /// The directory of the stored file, made before the file is written.
    pub directory: String,
    /// The file in which the body is stored.
    pub file_path: String,
}

/// The bytes of a body and the file in which they are to be stored.
#[derive(Debug)]
pub struct StoredPdf {
    pub path: String,
    pub bytes: Vec<u8>,
}

/// Whether a status code of HTTP reports success.
pub open spec fn is_success(status: u16) -> bool {
    200 <= status < 300
}

/// Whether a body is text that holds the mark of an HTML page.
pub open spec fn is_html_page(body: Seq<u8>) -> bool {
    valid_utf8(body) && occurs_in(decode_utf8(body), "<head>"@)
}

/// What a fetch comes to once a body has been received: an HTML page is no
/// PDF whatever the status, any other body of a failed request is a failed
/// transport, and everything else is taken as the PDF.
pub open spec fn verdict(status: u16, body: Seq<u8>) -> Result<(), FetchError> {
    if is_html_page(body) {
        Err(FetchError::NotAPdf)
    } else if !is_success(status) {
        Err(FetchError::Transport)
    } else {
        Ok(())
    }
}

/// The request that fetches the PDF of the document `paper_id` from `url`.
pub fn fetch_request(paper_id: &str, url: &str) -> (request: FetchRequest)
    ensures
        request.url@ == url@,
        request.user_agent@ == "Mozilla/5.0"@,
        request.cookie_store,
        request.directory@ == "data/pdf_temp"@,
        request.file_path@ == path_of(paper_id@),
{
    FetchRequest {
        url: url.to_owned(),
        user_agent: "Mozilla/5.0".to_owned(),
        cookie_store: true,
        directory: pdf_directory().to_owned(),
        file_path: pdf_file_path(paper_id),
    }
}

/// Whether `body` is text that holds the mark of an HTML page.
pub fn looks_like_html(body: &[u8]) -> (html: bool)
    ensures
        html == is_html_page(body@),
{
    match str_from_utf8(body) {
        Some(text) => {
            let haystack = chars_of(text);
            let needle = chars_of("<head>");
            contains_chars(haystack.as_slice(), needle.as_slice())
        },
        None => false,
    }
}

/// Judges the body that a request brought back.
pub fn check_response(status: u16, body: &[u8]) -> (outcome: Result<(), FetchError>)
    ensures
        outcome == verdict(status, body@),
{
    if looks_like_html(body) {
        Err(FetchError::NotAPdf)
    } else if status < 200 || status >= 300 {
        Err(FetchError::Transport)
    } else {
        Ok(())
    }
}

/// What a server handed back: a status code with a body.
#[derive(Debug)]
pub struct Response {
    pub status: u16,
    pub body: Vec<u8>,
}

/// What a fetch comes to: `Transport` where no response came, and the
/// verdict on its status and body where one did.
pub open spec fn fetch_outcome(response: Option<Response>) -> Result<(), FetchError> {
    match response {
        Some(r) => verdict(r.status, r.body@),
        None => Err(FetchError::Transport),
    }
}

/// Settles a fetch once the transport is done, with the response where one
/// came. Gives the file to write and the outcome of the fetch. A body that
/// came is stored as it came, whatever the outcome; without a response
/// nothing is stored.
pub fn settle_fetch(request: &FetchRequest, response: Option<Response>) -> (settled: (
    Option<StoredPdf>,
    Result<(), FetchError>,
))
    ensures
        settled.1 == fetch_outcome(response),
        match response {
            Some(r) => settled.0 matches Some(stored) && stored.path@ == request.file_path@
                && stored.bytes@ == r.body@,
            None => settled.0 is None,
        },
{
    match response {
        Some(r) => {
            let outcome = check_response(r.status, r.body.as_slice());
            (Some(StoredPdf { path: request.file_path.clone(), bytes: r.body }), outcome)
        },
        None => (None, Err(FetchError::Transport)),
    }
}

} // verus!
