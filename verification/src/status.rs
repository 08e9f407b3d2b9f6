//! The processing status of a document and the labels under which it is stored.

use vstd::prelude::*;
use vstd::utf8::*;
use crate::text::{str_eq, str_from_utf8};

verus! {

/// Where a document stands in the pipeline. The variants are ordered as
/// written; a document of which nothing is stored is `NotStarted`.
#[derive(Debug, Clone, Copy, PartialEq, Eq, Structural)]
pub enum PdfFileStatus {
    /// Nothing has been asked of the document yet.
    NotStarted,
    /// A fetch of the PDF has been accepted. The label is `accepted`.
    Accpeted,
    /// The PDF has been fetched and stored.
    Downloaded,
    /// The text of the PDF has been extracted.
    Converted,
    /// The text has been indexed.
    Indexed,
    /// The indexed text has been patched.
    Patched,
}

/// A change of status that was refused because it does not move the
/// document forward in the pipeline.
#[derive(Debug, Clone, Copy, PartialEq, Eq, Structural)]
pub struct InvalidTransition {
    pub from: PdfFileStatus,
    pub to: PdfFileStatus,
}

/// The status that a stored label stands for: one of the five stored labels,
/// and `NotStarted` for every other text.
pub open spec fn status_of_label(label: Seq<char>) -> PdfFileStatus {
    if label == "accepted"@ {
        PdfFileStatus::Accpeted
    } else if label == "downloaded"@ {
        PdfFileStatus::Downloaded
    } else if label == "converted"@ {
        PdfFileStatus::Converted
    } else if label == "indexed"@ {
        PdfFileStatus::Indexed
    } else if label == "patched"@ {
        PdfFileStatus::Patched
    } else {
        PdfFileStatus::NotStarted
    }
}

/// The status that a stored record stands for. No record, bytes that are no
/// UTF-8 and a label that is not known all read as `NotStarted`.
pub open spec fn status_of_record(record: Option<Seq<u8>>) -> PdfFileStatus {
    match record {
        Some(bytes) => if valid_utf8(bytes) {
            status_of_label(decode_utf8(bytes))
        } else {
            PdfFileStatus::NotStarted
        },
        None => PdfFileStatus::NotStarted,
    }
}

/// The view of an optional slice of bytes.
pub open spec fn record_view(record: Option<&[u8]>) -> Option<Seq<u8>> {
    match record {
        Some(bytes) => Some(bytes@),
        None => None,
    }
}

impl PdfFileStatus {
    /// The label of a status, as it is stored and shown: its name in
    /// lowercase, and `none` for `NotStarted`, for which nothing is stored.
    pub open spec fn label(self) -> Seq<char> {
        match self {
            PdfFileStatus::NotStarted => "none"@,
            PdfFileStatus::Accpeted => "accepted"@,
            PdfFileStatus::Downloaded => "downloaded"@,
            PdfFileStatus::Converted => "converted"@,
            PdfFileStatus::Indexed => "indexed"@,
            PdfFileStatus::Patched => "patched"@,
        }
    }

    /// The place of a status in the order of the pipeline, from 0 for `NotStarted`.
    pub open spec fn spec_rank(self) -> u8 {
        match self {
            PdfFileStatus::NotStarted => 0,
            PdfFileStatus::Accpeted => 1,
            PdfFileStatus::Downloaded => 2,
            PdfFileStatus::Converted => 3,
            PdfFileStatus::Indexed => 4,
            PdfFileStatus::Patched => 5,
        }
    }

    /// The place of this status in the order of the pipeline.
    #[verifier::when_used_as_spec(spec_rank)]
    pub fn rank(self) -> (r: u8)
        ensures
            r == self.spec_rank(),
    {
        match self {
            PdfFileStatus::NotStarted => 0,
            PdfFileStatus::Accpeted => 1,
            PdfFileStatus::Downloaded => 2,
            PdfFileStatus::Converted => 3,
            PdfFileStatus::Indexed => 4,
            PdfFileStatus::Patched => 5,
        }
    }

    /// Whether `next` lies further along the pipeline than this status.
    pub open spec fn advances_to(self, next: PdfFileStatus) -> bool {
        self.spec_rank() < next.spec_rank()
    }

    /// Judges a change of status from this one to `next`. Where `strict` is
    /// set, only a change that moves forward is accepted; where it is not,
    /// every change is.
    pub fn check_transition(self, next: PdfFileStatus, strict: bool) -> (judged: Result<
        (),
        InvalidTransition,
    >)
        ensures
            judged == if strict && !self.advances_to(next) {
                Err::<(), InvalidTransition>(InvalidTransition { from: self, to: next })
            } else {
                Ok::<(), InvalidTransition>(())
            },
    {
        if strict && self.rank() >= next.rank() {
            Err(InvalidTransition { from: self, to: next })
        } else {
            Ok(())
        }
    }

    /// The label of this status, as it is stored and shown.
    pub fn as_label(&self) -> (label: &'static str)
        ensures
            label@ == self.label(),
    {
        match self {
            PdfFileStatus::NotStarted => "none",
            PdfFileStatus::Accpeted => "accepted",
            PdfFileStatus::Downloaded => "downloaded",
            PdfFileStatus::Converted => "converted",
            PdfFileStatus::Indexed => "indexed",
            PdfFileStatus::Patched => "patched",
        }
    }

    /// The label of this status as an owned string.
    pub fn to_string(&self) -> (label: String)
        ensures
            label@ == self.label(),
    {
        self.as_label().to_owned()
    }

    /// Reads the status of a document from the bytes stored for it, or from
    /// `None` where nothing is stored.
    pub fn from_record(record: Option<&[u8]>) -> (status: PdfFileStatus)
        ensures
            status == status_of_record(record_view(record)),
    {
        match record {
            Some(bytes) => match str_from_utf8(bytes) {
                Some(label) => PdfFileStatus::from_label(label),
                None => PdfFileStatus::NotStarted,
            },
            None => PdfFileStatus::NotStarted,
        }
    }

    /// The bytes stored for a status: its label in UTF-8.
    pub open spec fn record(self) -> Seq<u8> {
        encode_utf8(self.label())
    }

    /// The bytes stored for this status.
    pub fn to_record(&self) -> (record: Vec<u8>)
        ensures
            record@ == self.record(),
    {
        self.as_label().as_bytes_vec()
    }

    /// Reads a status from its label. A label that is not known reads as `NotStarted`.
    pub fn from_label(label: &str) -> (status: PdfFileStatus)
        ensures
            status == status_of_label(label@),
    {
        if str_eq(label, "accepted") {
            PdfFileStatus::Accpeted
        } else if str_eq(label, "downloaded") {
            PdfFileStatus::Downloaded
        } else if str_eq(label, "converted") {
            PdfFileStatus::Converted
        } else if str_eq(label, "indexed") {
            PdfFileStatus::Indexed
        } else if str_eq(label, "patched") {
            PdfFileStatus::Patched
        } else {
            PdfFileStatus::NotStarted
        }
    }
}

/// The typed face of the status store. The store behind an implementation
/// is durable and shared, so nothing is promised here of what a call finds in
/// it: what a read makes of the record it found is [`PdfFileStatus::from_record`],
/// and what a write stores is [`PdfFileStatus::as_label`].
pub trait PdfFileState {
    /// The status of the document `paper_id`.
    fn check_file_status(&self, paper_id: &str) -> PdfFileStatus;

    /// Stores `status` as the label of the document `paper_id`.
    fn set_file_status_raw(&self, paper_id: &str, status: &str);

    /// Stores the label of `status` for the document `paper_id`.
    fn set_file_status(&self, paper_id: &str, status: PdfFileStatus) {
        self.set_file_status_raw(paper_id, status.as_label())
    }
}

/// The status of the document `id` in a store that holds `store`.
pub open spec fn tracked_status(store: Map<Seq<char>, Seq<u8>>, id: Seq<char>) -> PdfFileStatus {
    status_of_record(
        if store.contains_key(id) {
            Some(store[id])
        } else {
            None
        },
    )
}

/// What a store holds once `status` has been set for the document `id`.
pub open spec fn store_with(store: Map<Seq<char>, Seq<u8>>, id: Seq<char>, status: PdfFileStatus) -> Map<
    Seq<char>,
    Seq<u8>,
> {
    store.insert(id, status.record())
}

/// The six labels differ from one another, so each names its own status.
pub proof fn lemma_label_names_status(status: PdfFileStatus)
    ensures
        status_of_label(status.label()) == status,
{
    reveal_strlit("none");
    reveal_strlit("accepted");
    reveal_strlit("downloaded");
    reveal_strlit("converted");
    reveal_strlit("indexed");
    reveal_strlit("patched");
    assert("indexed"@[0] != "patched"@[0]);
    assert("none"@.len() == 4);
    assert("accepted"@.len() == 8);
    assert("downloaded"@.len() == 10);
    assert("converted"@.len() == 9);
    assert("indexed"@.len() == 7);
}

/// A document for which nothing was ever stored is `NotStarted`.
pub proof fn lemma_untracked_not_started(store: Map<Seq<char>, Seq<u8>>, id: Seq<char>)
    requires
        !store.contains_key(id),
    ensures
        tracked_status(store, id) == PdfFileStatus::NotStarted,
{
}

/// A status that was set for a document is the status read for it next.
pub proof fn lemma_read_after_write(store: Map<Seq<char>, Seq<u8>>, id: Seq<char>, status: PdfFileStatus)
    ensures
        tracked_status(store_with(store, id, status), id) == status,
{
    encode_utf8_valid_utf8(status.label());
    encode_utf8_decode_utf8(status.label());
    lemma_label_names_status(status);
}

/// Setting the status of one document leaves every other document as it was.
pub proof fn lemma_write_leaves_others(
    store: Map<Seq<char>, Seq<u8>>,
    id: Seq<char>,
    status: PdfFileStatus,
    other: Seq<char>,
)
    requires
        other != id,
    ensures
        tracked_status(store_with(store, id, status), other) == tracked_status(store, other),
{
}

/// A stored label that is none of the five known ones reads as `NotStarted`.
pub proof fn lemma_unknown_label_not_started(label: Seq<char>)
    requires
        label != PdfFileStatus::Accpeted.label(),
        label != PdfFileStatus::Downloaded.label(),
        label != PdfFileStatus::Converted.label(),
        label != PdfFileStatus::Indexed.label(),
        label != PdfFileStatus::Patched.label(),
    ensures
        status_of_label(label) == PdfFileStatus::NotStarted,
        status_of_record(Some(encode_utf8(label))) == PdfFileStatus::NotStarted,
{
    encode_utf8_valid_utf8(label);
    encode_utf8_decode_utf8(label);
}

} // verus!
