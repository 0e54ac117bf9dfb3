//! Errors of the event storage layer.

use vstd::prelude::*;

use crate::protocol::EventId;

verus! {

/// An error returned by an event store.
#[derive(Debug, PartialEq, Eq)]
pub enum StorageError {
    /// An event with the same identifier but different content is already stored.
    EventConflict { event_id: EventId },
    /// A query cursor was malformed, foreign, or out of range.
    InvalidCursor { reason: String },
    /// A query's parameters were out of their allowed range.
    InvalidQuery { reason: String },
}

} // verus!
