use std::cell::{Cell, RefCell};

use scholar_pipeline::pipeline::{clone_step, CloneAction, CloneEvent, CloneState};
use scholar_pipeline::status::{PdfFileState, PdfFileStatus};

struct MemoryStore {
    records: RefCell<Vec<(String, String)>>,
}

impl PdfFileState for MemoryStore {
    fn check_file_status(&self, paper_id: &str) -> PdfFileStatus {
        let records = self.records.borrow();
        let found = records.iter().find(|(k, _)| k == paper_id).map(|(_, v)| v.as_bytes());
        PdfFileStatus::from_record(found)
    }

    fn set_file_status_raw(&self, paper_id: &str, status: &str) {
        let mut records = self.records.borrow_mut();
        records.retain(|(k, _)| k != paper_id);
        records.push((paper_id.to_string(), status.to_string()));
    }
}

/// Runs one attempt against a store in memory and a fetch that is counted.
fn acquire(
    store: &MemoryStore,
    fetches: &Cell<u32>,
    paper_id: &str,
    fetch: bool,
) -> PdfFileStatus {
    let mut state = CloneState::Start;
    let mut event = CloneEvent::Requested;
    for _ in 0..16 {
        let (next, action) = clone_step(state, event);
        state = next;
        event = match action {
            CloneAction::ReadStatus => CloneEvent::Status(store.check_file_status(paper_id)),
            CloneAction::WriteStatus(status) => {
                store.set_file_status(paper_id, status);
                CloneEvent::Written
            }
            CloneAction::Fetch => {
                fetches.set(fetches.get() + 1);
                CloneEvent::Fetched(fetch)
            }
            CloneAction::Respond(status) => {
                assert_eq!(state, CloneState::Done);
                return status;
            }
            CloneAction::Refuse => panic!("the attempt refused an event"),
        };
    }
    panic!("the attempt did not end");
}

#[test]
fn acquiring_twice_fetches_once() {
    let store = MemoryStore { records: RefCell::new(Vec::new()) };
    let fetches = Cell::new(0);
    let id = "10.1145/3292500.3330648";
    assert_eq!(acquire(&store, &fetches, id, true), PdfFileStatus::Downloaded);
    assert_eq!(fetches.get(), 1);
    assert_eq!(acquire(&store, &fetches, id, true), PdfFileStatus::Downloaded);
    assert_eq!(fetches.get(), 1);
    assert_eq!(store.check_file_status(id), PdfFileStatus::Downloaded);
}

#[test]
fn failed_fetch_leaves_document_accepted() {
    let store = MemoryStore { records: RefCell::new(Vec::new()) };
    let fetches = Cell::new(0);
    assert_eq!(acquire(&store, &fetches, "abc", false), PdfFileStatus::Accpeted);
    assert_eq!(fetches.get(), 1);
    assert_eq!(acquire(&store, &fetches, "abc", true), PdfFileStatus::Accpeted);
    assert_eq!(fetches.get(), 1);
    assert_eq!(acquire(&store, &fetches, "abd", false), PdfFileStatus::Accpeted);
    assert_eq!(fetches.get(), 2);
}

#[test]
fn tracked_document_is_not_fetched() {
    for status in [PdfFileStatus::Converted, PdfFileStatus::Indexed, PdfFileStatus::Patched] {
        let store = MemoryStore { records: RefCell::new(Vec::new()) };
        store.set_file_status("abc", status);
        let fetches = Cell::new(0);
        assert_eq!(acquire(&store, &fetches, "abc", true), status);
        assert_eq!(fetches.get(), 0);
    }
}

#[test]
fn document_with_unknown_label_is_fetched() {
    let store = MemoryStore { records: RefCell::new(Vec::new()) };
    store.set_file_status_raw("abc", "quarantined");
    let fetches = Cell::new(0);
    assert_eq!(acquire(&store, &fetches, "abc", true), PdfFileStatus::Downloaded);
    assert_eq!(fetches.get(), 1);
}

#[test]
fn steps_follow_one_another() {
    assert_eq!(
        clone_step(CloneState::Start, CloneEvent::Requested),
        (CloneState::Checking, CloneAction::ReadStatus)
    );
    assert_eq!(
        clone_step(CloneState::Checking, CloneEvent::Status(PdfFileStatus::NotStarted)),
        (CloneState::Accepting, CloneAction::WriteStatus(PdfFileStatus::Accpeted))
    );
    assert_eq!(
        clone_step(CloneState::Checking, CloneEvent::Status(PdfFileStatus::Accpeted)),
        (CloneState::Reporting, CloneAction::ReadStatus)
    );
    assert_eq!(
        clone_step(CloneState::Accepting, CloneEvent::Written),
        (CloneState::Fetching, CloneAction::Fetch)
    );
    assert_eq!(
        clone_step(CloneState::Fetching, CloneEvent::Fetched(true)),
        (CloneState::Recording, CloneAction::WriteStatus(PdfFileStatus::Downloaded))
    );
    assert_eq!(
        clone_step(CloneState::Fetching, CloneEvent::Fetched(false)),
        (CloneState::Reporting, CloneAction::ReadStatus)
    );
    assert_eq!(
        clone_step(CloneState::Recording, CloneEvent::Written),
        (CloneState::Reporting, CloneAction::ReadStatus)
    );
    assert_eq!(
        clone_step(CloneState::Reporting, CloneEvent::Status(PdfFileStatus::Indexed)),
        (CloneState::Done, CloneAction::Respond(PdfFileStatus::Indexed))
    );
}

#[test]
fn stray_event_is_refused() {
    assert_eq!(
        clone_step(CloneState::Start, CloneEvent::Written),
        (CloneState::Start, CloneAction::Refuse)
    );
    assert_eq!(
        clone_step(CloneState::Done, CloneEvent::Requested),
        (CloneState::Done, CloneAction::Refuse)
    );
    assert_eq!(
        clone_step(CloneState::Fetching, CloneEvent::Status(PdfFileStatus::Downloaded)),
        (CloneState::Fetching, CloneAction::Refuse)
    );
    assert_eq!(
        clone_step(CloneState::Accepting, CloneEvent::Fetched(true)),
        (CloneState::Accepting, CloneAction::Refuse)
    );
}
