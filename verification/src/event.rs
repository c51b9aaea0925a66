//! The kinds of callback API events the bot can be notified of.

use vstd::prelude::*;

verus! {

/// The kind of a callback API notification.
///
/// The kind decides which field of the event's object holds the peer id that
/// a reply must be addressed to: `MessageAllow` carries it as a user id,
/// `MessageTypingState` as a sender id, and every other kind as a
/// conversation id.
#[derive(Clone, Copy, Debug, PartialEq, Eq, Structural)]
pub enum Event {
    /// A new incoming message.
    MessageNew,
    /// A reply sent on behalf of the group.
    MessageReply,
    /// An existing message was edited.
    MessageEdit,
    /// A user granted the group permission to message them.
    MessageAllow,
    /// A user revoked the group's permission to message them.
    MessageDeny,
    /// A user is typing in a conversation.
    MessageTypingState,
}

} // verus!
