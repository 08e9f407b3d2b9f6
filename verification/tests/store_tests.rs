use scholar_pipeline::status::PdfFileStatus;
use scholar_pipeline::store::{status_entries, store_report, text_entries};

fn entry(key: &str, value: &str) -> (String, String) {
    (key.to_string(), value.to_string())
}

#[test]
fn listing_is_read_as_text() {
    let raw = vec![
        (b"10.1145/3292500.3330648".to_vec(), b"downloaded".to_vec()),
        ("caf\u{e9}".as_bytes().to_vec(), b"accepted".to_vec()),
    ];
    assert_eq!(
        text_entries(&raw),
        Some(vec![entry("10.1145/3292500.3330648", "downloaded"), entry("caf\u{e9}", "accepted")])
    );
    assert_eq!(text_entries(&[]), Some(vec![]));
}

#[test]
fn listing_that_is_no_text_is_not_read() {
    let bad_key = vec![(b"a".to_vec(), b"patched".to_vec()), (vec![0xff], b"patched".to_vec())];
    assert_eq!(text_entries(&bad_key), None);
    let bad_value = vec![(b"a".to_vec(), vec![0xc3, 0x28]), (b"b".to_vec(), b"patched".to_vec())];
    assert_eq!(text_entries(&bad_value), None);
}

#[test]
fn listing_gives_each_document_its_status() {
    let entries = vec![entry("a", "indexed"), entry("b", "future"), entry("c", "accepted"), entry("d", "none")];
    assert_eq!(
        status_entries(&entries),
        vec![
            ("a".to_string(), PdfFileStatus::Indexed),
            ("b".to_string(), PdfFileStatus::NotStarted),
            ("c".to_string(), PdfFileStatus::Accpeted),
            ("d".to_string(), PdfFileStatus::NotStarted),
        ]
    );
}

#[test]
fn report_lists_every_entry() {
    let entries = vec![entry("10.1145/3292500.3330648", "downloaded"), entry("abc", "accepted")];
    assert_eq!(
        store_report(&entries),
        "StateMach\n---------\n10.1145/3292500.3330648: downloaded\nabc: accepted\n\n---------\n"
    );
    assert_eq!(store_report(&[]), "StateMach\n---------\n\n---------\n");
}
