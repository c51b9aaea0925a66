//! The errors this library reports.

use vstd::prelude::*;
use crate::event::Event;

verus! {

/// The addressing field that an event's object was expected to carry.
#[derive(Clone, Copy, Debug, PartialEq, Eq, Structural)]
pub enum Field {
    /// The `user_id` field, expected on permission events.
    UserId,
    /// The `from_id` field (possibly nested under a message record),
    /// expected on typing-state events.
    FromId,
    /// The `peer_id` field (possibly nested under a message record),
    /// expected on every other event.
    PeerId,
}

/// A failure of the transport alone: all that the injected sender may
/// report. `send` turns it into the matching [`BotError`] unchanged.
#[derive(Clone, Debug, PartialEq, Eq)]
pub enum SendFailure {
    /// The shared client could not be locked (for example, a prior holder
    /// failed while holding it). Carries the lock failure's text.
    Lock(String),
    /// The remote call failed; the remote error's text, unchanged.
    Api(String),
}

/// An error reported by context construction or by `send`.
///
/// No failure is swallowed: a malformed event rejects construction, and every
/// failure on `send` is returned to the caller, who decides on logging or
/// user-visible messaging.
#[derive(Clone, Debug, PartialEq, Eq)]
pub enum BotError {
    /// The event's object lacks the addressing field that its event kind
    /// requires, so no peer id can be derived.
    MalformedEvent { event: Event, field: Field },
    /// The shared client could not be locked; a [`SendFailure::Lock`] from
    /// the sender, with its text.
    Lock(String),
    /// The keyboard could not be serialized. Carries the serializer's text;
    /// `send` reports it only when a keyboard is set.
    Serialization(String),
    /// The remote call failed; a [`SendFailure::Api`] from the sender, with
    /// the remote error's text unchanged.
    Api(String),
}

} // verus!
