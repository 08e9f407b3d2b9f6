use scholar_pipeline::fetch::{
    check_response, fetch_request, looks_like_html, settle_fetch, FetchError, Response,
};

const PAGE: &str = "<!DOCTYPE html><html><head><title>Sign in</title></head><body>Please log in.</body></html>";

#[test]
fn html_page_is_not_a_pdf() {
    assert_eq!(check_response(200, PAGE.as_bytes()), Err(FetchError::NotAPdf));
    assert!(looks_like_html(PAGE.as_bytes()));
    assert!(looks_like_html(b"<head>"));
    assert!(looks_like_html("\u{4e2d}\u{6587}<head>\u{e9}".as_bytes()));
}

#[test]
fn html_page_is_stored_all_the_same() {
    let request = fetch_request("10.1145/3292500.3330648", "https://dl.acm.org/doi/pdf/10.1145/3292500.3330648");
    let response = Response { status: 200, body: PAGE.as_bytes().to_vec() };
    let (stored, outcome) = settle_fetch(&request, Some(response));
    assert_eq!(outcome, Err(FetchError::NotAPdf));
    let stored = stored.unwrap();
    assert_eq!(stored.bytes, PAGE.as_bytes());
    assert_eq!(stored.path, "data/pdf_temp/10_d1145_s3292500_d3330648.pdf");
}

#[test]
fn binary_body_is_taken_as_pdf() {
    let body: Vec<u8> = vec![b'%', b'P', b'D', b'F', b'-', b'1', b'.', b'7', b'\n', 0xe2, 0xe3, 0xcf, 0xd3, b'<', b'h', b'e', b'a', b'd', b'>'];
    assert!(!looks_like_html(&body));
    assert_eq!(check_response(200, &body), Ok(()));
    let request = fetch_request("abc", "http://example.org/abc.pdf");
    let (stored, outcome) = settle_fetch(&request, Some(Response { status: 200, body: body.clone() }));
    assert_eq!(outcome, Ok(()));
    assert_eq!(stored.unwrap().bytes, body);
}

#[test]
fn text_without_the_mark_is_taken_as_pdf() {
    assert_eq!(check_response(200, b"%PDF-1.4 plain"), Ok(()));
    assert_eq!(check_response(200, b""), Ok(()));
    assert_eq!(check_response(200, b"<HEAD>"), Ok(()));
    assert_eq!(check_response(200, b"<head"), Ok(()));
    assert_eq!(check_response(200, b"<hea<head"), Ok(()));
    assert_eq!(check_response(299, b"< head>"), Ok(()));
    assert_eq!(check_response(200, b"<hea<head>"), Err(FetchError::NotAPdf));
}

#[test]
fn failed_status_is_a_transport_error() {
    assert_eq!(check_response(404, b"not found"), Err(FetchError::Transport));
    assert_eq!(check_response(500, &[0xff, 0x00]), Err(FetchError::Transport));
    assert_eq!(check_response(199, b""), Err(FetchError::Transport));
    assert_eq!(check_response(300, b""), Err(FetchError::Transport));
    assert_eq!(check_response(403, PAGE.as_bytes()), Err(FetchError::NotAPdf));
}

#[test]
fn no_response_is_a_transport_error() {
    let request = fetch_request("abc", "http://example.org/abc.pdf");
    let (stored, outcome) = settle_fetch(&request, None);
    assert!(stored.is_none());
    assert_eq!(outcome, Err(FetchError::Transport));
}

#[test]
fn request_names_agent_cookies_and_place() {
    let request = fetch_request("10.1145/3292500.3330648", "https://dl.acm.org/doi/pdf/10.1145/3292500.3330648");
    assert_eq!(request.url, "https://dl.acm.org/doi/pdf/10.1145/3292500.3330648");
    assert_eq!(request.user_agent, "Mozilla/5.0");
    assert!(request.cookie_store);
    assert_eq!(request.directory, "data/pdf_temp");
    assert_eq!(request.file_path, "data/pdf_temp/10_d1145_s3292500_d3330648.pdf");
}
