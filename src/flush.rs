//! The life of one queue entry as the flush worker drains it:
//! absent, buffered (its file is present), in flight (being uploaded).
use vstd::prelude::*;

verus! {

#[derive(Debug, Clone, Copy, PartialEq, Eq, Structural)]
pub enum EntryState {
    /// No queue file for the object.
    Absent,
    /// The queue file holds a write that the remote store does not have yet.
    Buffered,
    /// The queue file is being uploaded.
    InFlight,
}

#[derive(Debug, Clone, Copy, PartialEq, Eq, Structural)]
pub enum FlushEvent {
    /// A write was stored in the queue file, durably.
    Written,
    /// A scan of the queue directory, or a file-creation notice, reached the entry.
    Scanned,
    /// The remote store acknowledged the upload.
    UploadSucceeded,
    /// The upload failed.
    UploadFailed,
}

#[derive(Debug, Clone, Copy, PartialEq, Eq, Structural)]
pub enum FlushAction {
    Nothing,
    /// Upload the queue file to the remote store.
    Upload,
    /// Delete the queue file: the remote store holds its content.
    RemoveLocal,
    /// Leave the queue file for the next pass.
    KeepLocal,
}

/// The next state of an entry and what the worker does, on an event.
/// A write always leaves the entry buffered, so an acknowledgment that
/// arrives after a newer write removes nothing.
pub open spec fn next_state(s: EntryState, e: FlushEvent) -> (EntryState, FlushAction) {
    match e {
        FlushEvent::Written => (EntryState::Buffered, FlushAction::Nothing),
        FlushEvent::Scanned => match s {
            EntryState::Buffered => (EntryState::InFlight, FlushAction::Upload),
            _ => (s, FlushAction::Nothing),
        },
        FlushEvent::UploadSucceeded => match s {
            EntryState::InFlight => (EntryState::Absent, FlushAction::RemoveLocal),
            _ => (s, FlushAction::Nothing),
        },
        FlushEvent::UploadFailed => match s {
            EntryState::InFlight => (EntryState::Buffered, FlushAction::KeepLocal),
            _ => (s, FlushAction::Nothing),
        },
    }
}

pub fn step(s: EntryState, e: FlushEvent) -> (r: (EntryState, FlushAction))
    ensures
        r == next_state(s, e),
{
    match e {
        FlushEvent::Written => (EntryState::Buffered, FlushAction::Nothing),
        FlushEvent::Scanned => match s {
            EntryState::Buffered => (EntryState::InFlight, FlushAction::Upload),
            _ => (s, FlushAction::Nothing),
        },
        FlushEvent::UploadSucceeded => match s {
            EntryState::InFlight => (EntryState::Absent, FlushAction::RemoveLocal),
            _ => (s, FlushAction::Nothing),
        },
        FlushEvent::UploadFailed => match s {
            EntryState::InFlight => (EntryState::Buffered, FlushAction::KeepLocal),
            _ => (s, FlushAction::Nothing),
        },
    }
}

/// A write followed by a pass whose upload succeeds ends with the queue file
/// removed after it was uploaded, whatever state the entry started in.
pub proof fn lemma_flush_success(s: EntryState)
    ensures
        ({
            let (s1, a1) = next_state(s, FlushEvent::Written);
            let (s2, a2) = next_state(s1, FlushEvent::Scanned);
            let (s3, a3) = next_state(s2, FlushEvent::UploadSucceeded);
            &&& a1 == FlushAction::Nothing
            &&& a2 == FlushAction::Upload
            &&& a3 == FlushAction::RemoveLocal
            &&& s3 == EntryState::Absent
        }),
{
}

/// A failed upload keeps the queue file and leaves the entry buffered, and
/// the next pass uploads it again.
pub proof fn lemma_flush_failure_retries()
    ensures
        next_state(EntryState::Buffered, FlushEvent::Scanned) == (EntryState::InFlight, FlushAction::Upload),
        next_state(EntryState::InFlight, FlushEvent::UploadFailed) == (EntryState::Buffered, FlushAction::KeepLocal),
{
}

/// The queue file is removed only on an acknowledged upload of the entry in flight:
/// no failure and no other event ever deletes buffered data.
pub proof fn lemma_remove_only_after_ack(s: EntryState, e: FlushEvent)
    ensures
        next_state(s, e).1 == FlushAction::RemoveLocal ==> s == EntryState::InFlight && e
            == FlushEvent::UploadSucceeded,
        e == FlushEvent::UploadFailed ==> next_state(s, e).1 != FlushAction::RemoveLocal,
{
}

/// Flushing an entry that is already absent does nothing and leaves it absent.
pub proof fn lemma_flush_absent_is_noop()
    ensures
        next_state(EntryState::Absent, FlushEvent::Scanned) == (EntryState::Absent, FlushAction::Nothing),
        next_state(EntryState::Absent, FlushEvent::UploadSucceeded) == (EntryState::Absent, FlushAction::Nothing),
{
}

} // verus!
