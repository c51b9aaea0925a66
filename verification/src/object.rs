//! The event object: the payload a callback notification carries.
//!
//! Only the addressing fields are modelled: depending on the event kind and
//! on the platform's API version, the sender and conversation identifiers
//! stand either on the object itself or nested under its message record.

use vstd::prelude::*;

verus! {

/// The message record an event object may nest, with its own addressing
/// fields.
#[derive(Clone, Copy, Debug)]
pub struct MessageInfo {
    /// The sender of the message.
    pub from_id: Option<i64>,
    /// The conversation the message belongs to.
    pub peer_id: Option<i64>,
}

/// An event's object payload, reduced to the fields this layer reads.
///
/// Which field is read is decided by the event kind; everything else in the
/// platform's payload is no concern of this layer.
#[derive(Clone, Copy, Debug)]
pub struct Object {
    /// The user a permission event is about.
    pub user_id: Option<i64>,
    /// The sender, when it stands on the object itself.
    pub from_id: Option<i64>,
    /// The conversation, when it stands on the object itself.
    pub peer_id: Option<i64>,
    /// The nested message record, when the payload shape has one.
    pub message: Option<MessageInfo>,
}

/// The sender id of an object: `from_id` on the object itself if present,
/// else the nested message record's `from_id`.
pub open spec fn spec_sender_id(o: Object) -> Option<i64> {
    if o.from_id is Some {
        o.from_id
    } else {
        match o.message {
            Some(m) => m.from_id,
            None => None,
        }
    }
}

/// The conversation id of an object: `peer_id` on the object itself if
/// present, else the nested message record's `peer_id`.
pub open spec fn spec_conversation_id(o: Object) -> Option<i64> {
    if o.peer_id is Some {
        o.peer_id
    } else {
        match o.message {
            Some(m) => m.peer_id,
            None => None,
        }
    }
}

impl Object {
    /// The `user_id` field.
    pub fn user_id(&self) -> (r: Option<i64>)
        ensures
            r == self.user_id,
    {
        self.user_id
    }

    /// The sender id, read from the object itself or from its nested message
    /// record, whichever the payload shape carries.
    pub fn get_from_id(&self) -> (r: Option<i64>)
        ensures
            r == spec_sender_id(*self),
    {
        match self.from_id {
            Some(id) => Some(id),
            None => match &self.message {
                Some(m) => m.from_id,
                None => None,
            },
        }
    }

    /// The conversation id, read from the object itself or from its nested
    /// message record, whichever the payload shape carries.
    pub fn peer_id(&self) -> (r: Option<i64>)
        ensures
            r == spec_conversation_id(*self),
    {
        match self.peer_id {
            Some(id) => Some(id),
            None => match &self.message {
                Some(m) => m.peer_id,
                None => None,
            },
        }
    }
}

/// One inbound callback call, as the webhook dispatcher hands it over: the
/// group it was addressed to and the event's object.
#[derive(Clone, Copy, Debug)]
pub struct CallbackAPIRequest {
    /// The group (bot account) the callback was addressed to.
    pub group_id: i32,
    /// The event's object payload.
    pub object: Object,
}

impl CallbackAPIRequest {
    /// Packs a dispatched callback call.
    pub fn new(group_id: i32, object: Object) -> (r: CallbackAPIRequest)
        ensures
            r.group_id == group_id,
            r.object == object,
    {
        CallbackAPIRequest { group_id, object }
    }

    /// The event's object.
    pub fn object(&self) -> (o: &Object)
        ensures
            *o == self.object,
    {
        &self.object
    }

    /// The group the callback was addressed to.
    pub fn group_id(&self) -> (id: i32)
        ensures
            id == self.group_id,
    {
        self.group_id
    }
}

} // verus!
