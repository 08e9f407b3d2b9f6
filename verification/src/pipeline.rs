//! One attempt to acquire the PDF of a document, as a sequence of steps
//! between which the caller reads and writes the status store and fetches.

use vstd::prelude::*;
use crate::status::{store_with, tracked_status, PdfFileStatus};

verus! {

/// Where an attempt stands.
#[derive(Debug, Clone, Copy, PartialEq, Eq, Structural)]
pub enum CloneState {
    /// Nothing has been done yet.
    Start,
    /// The status of the document is being read for the first time.
    Checking,
    /// `Accpeted` is being stored.
    Accepting,
    /// The PDF is being fetched.
    Fetching,
    /// `Downloaded` is being stored.
    Recording,
    /// The status is being read for the answer.
    Reporting,
    /// The answer has been given.
    Done,
}

/// What the caller hands back after it did what it was asked.
#[derive(Debug, Clone, Copy, PartialEq, Eq, Structural)]
pub enum CloneEvent {
    /// A request came in.
    Requested,
    /// The status store holds this status for the document.
    Status(PdfFileStatus),
    /// The status was stored.
    Written,
    /// The fetch ended, and this says whether it brought the PDF.
    Fetched(bool),
}

/// What the caller is asked to do next.
#[derive(Debug, Clone, Copy, PartialEq, Eq, Structural)]
pub enum CloneAction {
    /// Read the status of the document and hand it back as `Status`.
    ReadStatus,
    /// Store this status for the document and hand back `Written`.
    WriteStatus(PdfFileStatus),
    /// Fetch the PDF and hand back how that ended as `Fetched`.
    Fetch,
    /// Answer the request with this status. The attempt is over.
    Respond(PdfFileStatus),
    /// The event does not belong to the state: nothing is to be done, and
    /// the attempt stays where it is.
    Refuse,
}

/// The step that an attempt takes in `state` on `event`.
///
/// A document that is `NotStarted` is marked `Accpeted` and fetched; where
/// the fetch succeeds it is marked `Downloaded`, and where it fails the
/// status stays. A document in any other status is not fetched. In the end
/// the status is read once more and given as the answer.
pub open spec fn next_step(state: CloneState, event: CloneEvent) -> (CloneState, CloneAction) {
    match (state, event) {
        (CloneState::Start, CloneEvent::Requested) => (CloneState::Checking, CloneAction::ReadStatus),
        (CloneState::Checking, CloneEvent::Status(status)) => if status == PdfFileStatus::NotStarted {
            (CloneState::Accepting, CloneAction::WriteStatus(PdfFileStatus::Accpeted))
        } else {
            (CloneState::Reporting, CloneAction::ReadStatus)
        },
        (CloneState::Accepting, CloneEvent::Written) => (CloneState::Fetching, CloneAction::Fetch),
        (CloneState::Fetching, CloneEvent::Fetched(fetched)) => if fetched {
            (CloneState::Recording, CloneAction::WriteStatus(PdfFileStatus::Downloaded))
        } else {
            (CloneState::Reporting, CloneAction::ReadStatus)
        },
        (CloneState::Recording, CloneEvent::Written) => (CloneState::Reporting, CloneAction::ReadStatus),
        (CloneState::Reporting, CloneEvent::Status(status)) => (
            CloneState::Done,
            CloneAction::Respond(status),
        ),
        _ => (state, CloneAction::Refuse),
    }
}

/// Takes one step of an attempt: the state that follows, and what the caller
/// is to do before it hands back the next event.
pub fn clone_step(state: CloneState, event: CloneEvent) -> (step: (CloneState, CloneAction))
    ensures
        step == next_step(state, event),
{
    match (state, event) {
        (CloneState::Start, CloneEvent::Requested) => (CloneState::Checking, CloneAction::ReadStatus),
        (CloneState::Checking, CloneEvent::Status(status)) => {
            if status == PdfFileStatus::NotStarted {
                (CloneState::Accepting, CloneAction::WriteStatus(PdfFileStatus::Accpeted))
            } else {
                (CloneState::Reporting, CloneAction::ReadStatus)
            }
        },
        (CloneState::Accepting, CloneEvent::Written) => (CloneState::Fetching, CloneAction::Fetch),
        (CloneState::Fetching, CloneEvent::Fetched(fetched)) => {
            if fetched {
                (CloneState::Recording, CloneAction::WriteStatus(PdfFileStatus::Downloaded))
            } else {
                (CloneState::Reporting, CloneAction::ReadStatus)
            }
        },
        (CloneState::Recording, CloneEvent::Written) => (CloneState::Reporting, CloneAction::ReadStatus),
        (CloneState::Reporting, CloneEvent::Status(status)) => (
            CloneState::Done,
            CloneAction::Respond(status),
        ),
        _ => (state, CloneAction::Refuse),
    }
}

/// What an attempt works on: the status store, and how often a PDF has been
/// fetched so far.
pub struct World {
    pub store: Map<Seq<char>, Seq<u8>>,
    pub fetches: nat,
}

/// What doing `action` for the document `id` makes of the world, and the
/// event that the caller hands back for it, where `fetch` says whether a
/// fetch brings the PDF.
pub open spec fn perform(world: World, id: Seq<char>, fetch: bool, action: CloneAction) -> (
    World,
    CloneEvent,
) {
    match action {
        CloneAction::ReadStatus => (world, CloneEvent::Status(tracked_status(world.store, id))),
        CloneAction::WriteStatus(status) => (
            World { store: store_with(world.store, id, status), fetches: world.fetches },
            CloneEvent::Written,
        ),
        CloneAction::Fetch => (
            World { store: world.store, fetches: world.fetches + 1 },
            CloneEvent::Fetched(fetch),
        ),
        _ => (world, CloneEvent::Requested),
    }
}

/// The world that an attempt leaves and the status that it answers with,
/// from `state` and `event` on, in at most `steps` steps. `None` stands for
/// an attempt that gave no answer within them.
pub open spec fn run(
    world: World,
    id: Seq<char>,
    fetch: bool,
    state: CloneState,
    event: CloneEvent,
    steps: nat,
) -> (World, Option<PdfFileStatus>)
    decreases steps,
{
    if steps == 0 {
        (world, None)
    } else {
        let (next, action) = next_step(state, event);
        match action {
            CloneAction::Respond(status) => (world, Some(status)),
            CloneAction::Refuse => (world, None),
            _ => {
                let (after, handed) = perform(world, id, fetch, action);
                run(after, id, fetch, next, handed, (steps - 1) as nat)
            },
        }
    }
}

/// A whole attempt for the document `id`, where `fetch` says whether a fetch
/// would bring the PDF.
pub open spec fn acquire(world: World, id: Seq<char>, fetch: bool) -> (
    World,
    Option<PdfFileStatus>,
) {
    run(world, id, fetch, CloneState::Start, CloneEvent::Requested, 7)
}

/// An attempt always gives an answer. It fetches once where it finds the
/// document `NotStarted` and not at all otherwise. What it answers with is
/// the status that the store holds when it ends: `Downloaded` after a fetch
/// that succeeded, `Accpeted` after one that failed, and the status found
/// where it did not fetch.
pub proof fn lemma_acquire(world: World, id: Seq<char>, fetch: bool)
    ensures
        ({
            let found = tracked_status(world.store, id);
            let (after, answer) = acquire(world, id, fetch);
            &&& answer == Some(tracked_status(after.store, id))
            &&& found != PdfFileStatus::NotStarted ==> after == world && answer == Some(found)
            &&& found == PdfFileStatus::NotStarted ==> after.fetches == world.fetches + 1
            &&& found == PdfFileStatus::NotStarted && fetch ==> answer == Some(
                PdfFileStatus::Downloaded,
            ) && after.store == store_with(
                store_with(world.store, id, PdfFileStatus::Accpeted),
                id,
                PdfFileStatus::Downloaded,
            )
            &&& found == PdfFileStatus::NotStarted && !fetch ==> answer == Some(
                PdfFileStatus::Accpeted,
            ) && after.store == store_with(world.store, id, PdfFileStatus::Accpeted)
        }),
{
    reveal_with_fuel(run, 8);
    crate::status::lemma_read_after_write(world.store, id, PdfFileStatus::Accpeted);
    crate::status::lemma_read_after_write(
        store_with(world.store, id, PdfFileStatus::Accpeted),
        id,
        PdfFileStatus::Downloaded,
    );
}

/// An attempt never moves a document backward, and leaves every other
/// document as it was.
pub proof fn lemma_acquire_moves_forward(
    world: World,
    id: Seq<char>,
    fetch: bool,
    other: Seq<char>,
)
    ensures
        ({
            let (after, _) = acquire(world, id, fetch);
            &&& tracked_status(world.store, id) == tracked_status(after.store, id) || tracked_status(
                world.store,
                id,
            ).advances_to(tracked_status(after.store, id))
            &&& other != id ==> tracked_status(after.store, other) == tracked_status(
                world.store,
                other,
            )
        }),
{
    lemma_acquire(world, id, fetch);
    crate::status::lemma_read_after_write(world.store, id, PdfFileStatus::Accpeted);
    crate::status::lemma_read_after_write(
        store_with(world.store, id, PdfFileStatus::Accpeted),
        id,
        PdfFileStatus::Downloaded,
    );
}

/// Two attempts in a row for a document that was `NotStarted`, with a fetch
/// that succeeds, both answer `Downloaded`, and fetch once between them.
pub proof fn lemma_acquire_twice(world: World, id: Seq<char>)
    requires
        tracked_status(world.store, id) == PdfFileStatus::NotStarted,
    ensures
        ({
            let (first, first_answer) = acquire(world, id, true);
            let (second, second_answer) = acquire(first, id, true);
            &&& first_answer == Some(PdfFileStatus::Downloaded)
            &&& second_answer == Some(PdfFileStatus::Downloaded)
            &&& second == first
            &&& second.fetches == world.fetches + 1
        }),
{
    lemma_acquire(world, id, true);
    let (first, _) = acquire(world, id, true);
    lemma_acquire(first, id, true);
}

} // verus!
