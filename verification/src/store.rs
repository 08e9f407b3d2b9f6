//! What is read from a listing of the status store.

use vstd::prelude::*;
use vstd::utf8::*;
use crate::status::{status_of_label, PdfFileStatus};
use crate::text::str_from_utf8;

verus! {

/// Whether the key and the value of every entry are UTF-8.
pub open spec fn all_text(raw: Seq<(Vec<u8>, Vec<u8>)>) -> bool {
    forall|i: int| 0 <= i < raw.len() ==> valid_utf8((#[trigger] raw[i]).0@) && valid_utf8(raw[i].1@)
}

/// Whether `entries` are the entries `raw` read as text, one for one and in order.
pub open spec fn entries_read(entries: Seq<(String, String)>, raw: Seq<(Vec<u8>, Vec<u8>)>) -> bool {
    &&& entries.len() == raw.len()
    &&& forall|i: int|
        0 <= i < entries.len() ==> (#[trigger] entries[i]).0@ == decode_utf8(raw[i].0@)
            && entries[i].1@ == decode_utf8(raw[i].1@)
}

/// The entries of the store as text, in the order of the listing; `None`
/// where a key or a value is no UTF-8.
pub fn text_entries(raw: &[(Vec<u8>, Vec<u8>)]) -> (entries: Option<Vec<(String, String)>>)
    ensures
        entries is Some <==> all_text(raw@),
        entries matches Some(read) ==> entries_read(read@, raw@),
{
    let mut read: Vec<(String, String)> = Vec::new();
    let mut i: usize = 0;
    while i < raw.len()
        invariant
            i <= raw.len(),
            read@.len() == i,
            forall|k: int| 0 <= k < i ==> valid_utf8((#[trigger] raw@[k]).0@) && valid_utf8(raw@[k].1@),
            forall|k: int|
                0 <= k < i ==> (#[trigger] read@[k]).0@ == decode_utf8(raw@[k].0@) && read@[k].1@
                    == decode_utf8(raw@[k].1@),
        decreases raw.len() - i,
    {
        let key = str_from_utf8(raw[i].0.as_slice());
        let value = str_from_utf8(raw[i].1.as_slice());
        match (key, value) {
            (Some(key), Some(value)) => {
                read.push((key.to_owned(), value.to_owned()));
            },
            _ => {
                assert(!(valid_utf8(raw@[i as int].0@) && valid_utf8(raw@[i as int].1@)));
                return None;
            },
        }
        i += 1;
    }
    Some(read)
}

/// Whether `statuses` give for each entry its key with the status that its
/// label stands for, one for one and in order.
pub open spec fn statuses_read(statuses: Seq<(String, PdfFileStatus)>, entries: Seq<(String, String)>) -> bool {
    &&& statuses.len() == entries.len()
    &&& forall|i: int|
        0 <= i < statuses.len() ==> (#[trigger] statuses[i]).0@ == entries[i].0@ && statuses[i].1
            == status_of_label(entries[i].1@)
}

/// The tracked documents with their statuses, in the order of the listing.
pub fn status_entries(entries: &[(String, String)]) -> (statuses: Vec<(String, PdfFileStatus)>)
    ensures
        statuses_read(statuses@, entries@),
{
    let mut statuses: Vec<(String, PdfFileStatus)> = Vec::new();
    let mut i: usize = 0;
    while i < entries.len()
        invariant
            i <= entries.len(),
            statuses@.len() == i,
            forall|k: int|
                0 <= k < i ==> (#[trigger] statuses@[k]).0@ == entries@[k].0@ && statuses@[k].1
                    == status_of_label(entries@[k].1@),
        decreases entries.len() - i,
    {
        let status = PdfFileStatus::from_label(entries[i].1.as_str());
        statuses.push((entries[i].0.clone(), status));
        i += 1;
    }
    statuses
}

/// The lines of a report, one for each entry: the key, a colon and a space,
/// the value, and a line feed.
pub open spec fn report_lines(entries: Seq<(String, String)>) -> Seq<char>
    decreases entries.len(),
{
    if entries.len() == 0 {
        seq![]
    } else {
        report_lines(entries.drop_last()) + entries.last().0@ + ": "@ + entries.last().1@ + "\n"@
    }
}

/// The report of a store with these entries.
pub open spec fn report_text(entries: Seq<(String, String)>) -> Seq<char> {
    "StateMach\n---------\n"@ + report_lines(entries) + "\n---------\n"@
}

/// The report of a store with these entries: a heading, a line for each
/// entry, an empty line and a rule.
pub fn store_report(entries: &[(String, String)]) -> (report: String)
    ensures
        report@ == report_text(entries@),
{
    let mut report = "StateMach\n---------\n".to_owned();
    let mut i: usize = 0;
    assert(entries@.take(0) =~= Seq::empty());
    assert(report@ =~= "StateMach\n---------\n"@ + report_lines(entries@.take(0)));
    while i < entries.len()
        invariant
            i <= entries.len(),
            report@ == "StateMach\n---------\n"@ + report_lines(entries@.take(i as int)),
        decreases entries.len() - i,
    {
        proof {
            let next = entries@.take(i + 1);
            assert(next.drop_last() =~= entries@.take(i as int));
            assert(next.last() == entries@[i as int]);
        }
        report.append(entries[i].0.as_str());
        report.append(": ");
        report.append(entries[i].1.as_str());
        report.append("\n");
        assert(report@ =~= "StateMach\n---------\n"@ + report_lines(entries@.take(i + 1)));
        i += 1;
    }
    assert(entries@.take(i as int) =~= entries@);
    report.append("\n---------\n");
    report
}

} // verus!
