//! The per-event context handed to handler code.
//!
//! A `Context` is built once per inbound callback call: it derives the peer
//! id to reply to from the event's object by event-kind-specific rules, and
//! carries the event, its object, a clone of the shared sender handle, and
//! the pending outgoing [`Response`]. [`Context::send`] assembles the
//! outbound call's parameters from the response and delivers them through
//! the sender; it does not clear the response, so a later `send` resends the
//! accumulated state.

use vstd::prelude::*;
use crate::error::{BotError, Field, SendFailure};
use crate::event::Event;
use crate::json::{json_error_text, json_to_string};
use crate::object::{spec_conversation_id, spec_sender_id, CallbackAPIRequest, Object};
use crate::params::build_send_params;
use crate::response::Response;
use crate::sender::MessageSender;

verus! {

/// The addressing field an event kind requires of its object.
pub open spec fn required_field(event: Event) -> Field {
    match event {
        Event::MessageAllow => Field::UserId,
        Event::MessageTypingState => Field::FromId,
        _ => Field::PeerId,
    }
}

/// The peer id an event addresses a reply to: the object's user id for
/// permission grants, its sender id for typing states, and its conversation
/// id for every other kind.
pub open spec fn spec_derive_peer_id(event: Event, o: Object) -> Option<i64> {
    match event {
        Event::MessageAllow => o.user_id,
        Event::MessageTypingState => spec_sender_id(o),
        _ => spec_conversation_id(o),
    }
}

/// Derives the peer id for an event from its object, or reports exactly
/// which addressing field the object lacks.
pub fn derive_peer_id(event: Event, object: &Object) -> (r: Result<i64, BotError>)
    ensures
        match spec_derive_peer_id(event, *object) {
            Some(id) => r == Ok::<i64, BotError>(id),
            None => r == Err::<i64, BotError>(
                BotError::MalformedEvent { event, field: required_field(event) },
            ),
        },
{
    let found: Option<i64> = match event {
        Event::MessageAllow => object.user_id(),
        Event::MessageTypingState => object.get_from_id(),
        _ => object.peer_id(),
    };
    match found {
        Some(id) => Ok(id),
        None => {
            let field = match event {
                Event::MessageAllow => Field::UserId,
                Event::MessageTypingState => Field::FromId,
                _ => Field::PeerId,
            };
            Err(BotError::MalformedEvent { event, field })
        },
    }
}

/// Relies on rand::random: draws a fresh dedup token for one send; nothing
/// is promised of its value. The draw aborts only if the operating system's
/// randomness source fails at seeding the thread-local generator — an
/// environment failure of the same class as running out of memory.
#[verifier::external_body]
fn fresh_random_id() -> (r: i32) {
    rand::random()
}

/// Stores the information handler code needs for one inbound event, and
/// sends the resulting message.
#[derive(Debug)]
pub struct Context<S: MessageSender> {
    group_id: i32,
    event: Event,
    object: Object,
    api: S,
    peer_id: i64,
    response: Response,
}

impl<S: MessageSender> Context<S> {
    /// The group the inbound callback was addressed to.
    pub closed spec fn spec_group_id(&self) -> i32 {
        self.group_id
    }

    /// The event kind that caused this context.
    pub closed spec fn spec_event(&self) -> Event {
        self.event
    }

    /// The event's object payload.
    pub closed spec fn spec_object(&self) -> Object {
        self.object
    }

    /// The shared sender handle.
    pub closed spec fn spec_api(&self) -> S {
        self.api
    }

    /// The peer id derived at construction.
    pub closed spec fn spec_peer_id(&self) -> i64 {
        self.peer_id
    }

    /// The pending response.
    pub closed spec fn spec_response(&self) -> Response {
        self.response
    }

    /// Builds a context for one inbound event: derives the peer id by the
    /// event kind's rule and starts with a fresh, empty response. An object
    /// without the required addressing field is rejected with the exact
    /// missing field, never accepted.
    pub fn new(event: Event, req: &CallbackAPIRequest, api: S) -> (r: Result<Context<S>, BotError>)
        ensures
            match r {
                Ok(ctx) => {
                    &&& Some(ctx.spec_peer_id()) == spec_derive_peer_id(event, req.object)
                    &&& ctx.spec_event() == event
                    &&& ctx.spec_group_id() == req.group_id
                    &&& ctx.spec_object() == req.object
                    &&& ctx.spec_api() == api
                    &&& ctx.spec_response().spec_message() == Seq::<char>::empty()
                    &&& ctx.spec_response().spec_attachments() == Seq::<Seq<char>>::empty()
                    &&& ctx.spec_response().spec_keyboard() is None
                },
                Err(e) => {
                    &&& spec_derive_peer_id(event, req.object) is None
                    &&& e == BotError::MalformedEvent { event, field: required_field(event) }
                },
            },
    {
        let peer_id = match derive_peer_id(event, req.object()) {
            Ok(id) => id,
            Err(e) => {
                return Err(e);
            },
        };
        Ok(
            Context {
                group_id: req.group_id(),
                event,
                object: *req.object(),
                api,
                peer_id,
                response: Response::new(),
            },
        )
    }

    /// Returns the group ID.
    pub fn group_id(&self) -> (id: i32)
        ensures
            id == self.spec_group_id(),
    {
        self.group_id
    }

    /// Returns the callback API event kind that caused this handler to run.
    pub fn event(&self) -> (e: Event)
        ensures
            e == self.spec_event(),
    {
        self.event
    }

    /// Returns the object associated with the event.
    pub fn object(&self) -> (o: &Object)
        ensures
            *o == self.spec_object(),
    {
        &self.object
    }

    /// Returns a new owning handle to the shared sender: one more holder of
    /// the same underlying client, equal to the one given at construction.
    pub fn api(&self) -> (r: S)
        ensures
            r == self.spec_api(),
    {
        self.api.duplicate()
    }

    /// Returns the pending response, mutably: handler code accumulates the
    /// outgoing message here.
    pub fn response(&mut self) -> (r: &mut Response)
        ensures
            *r == old(self).spec_response(),
            *final(r) == final(self).spec_response(),
            final(self).spec_group_id() == old(self).spec_group_id(),
            final(self).spec_event() == old(self).spec_event(),
            final(self).spec_object() == old(self).spec_object(),
            final(self).spec_api() == old(self).spec_api(),
            final(self).spec_peer_id() == old(self).spec_peer_id(),
    {
        &mut self.response
    }

    /// Sends the current response as one outbound call.
    ///
    /// The call's parameters are exactly
    /// [`send_param_seq`](crate::params::send_param_seq) of the derived peer
    /// id, the response's fields, and a fresh dedup token. A keyboard that
    /// fails to serialize is reported as [`BotError::Serialization`], and no
    /// delivery is attempted then; a failure of the sender is returned
    /// unchanged, as the matching error. The response is not cleared: a
    /// later call resends whatever is accumulated by then.
    pub fn send(&self) -> (r: Result<(), BotError>)
        ensures
            match r {
                Ok(u) => u == (),
                Err(e) => match e {
                    // Construction already derived the peer id; a send never
                    // finds the event malformed.
                    BotError::MalformedEvent { .. } => false,
                    // Serialization fails only at the keyboard's encoding, so
                    // only when a keyboard is set.
                    BotError::Serialization(_) => self.spec_response().spec_keyboard() is Some,
                    // The sender's own failures, handed on unchanged.
                    BotError::Lock(_) => true,
                    BotError::Api(_) => true,
                },
            },
    {
        let keyboard_json: Option<String> = match self.response.keyboard() {
            Some(value) => match json_to_string(value) {
                Ok(text) => Some(text),
                Err(e) => {
                    return Err(BotError::Serialization(json_error_text(&e)));
                },
            },
            None => None,
        };
        let random_id: i32 = fresh_random_id();
        let params = build_send_params(
            self.peer_id,
            self.response.message(),
            self.response.attachments(),
            keyboard_json,
            random_id,
        );
        match self.api.send_message(&params) {
            Ok(()) => Ok(()),
            Err(SendFailure::Lock(text)) => Err(BotError::Lock(text)),
            Err(SendFailure::Api(text)) => Err(BotError::Api(text)),
        }
    }
}

/// Law: for typing-state events the derived peer id is the sender id, read
/// the same whether it stands on the object itself or under its nested
/// message record.
pub proof fn lemma_typing_state_reads_sender_id(id: i64, flat: Object, nested: Object)
    requires
        flat.from_id == Some(id),
        nested.from_id is None,
        nested.message is Some,
        nested.message.unwrap().from_id == Some(id),
    ensures
        spec_derive_peer_id(Event::MessageTypingState, flat) == Some(id),
        spec_derive_peer_id(Event::MessageTypingState, nested) == Some(id),
{
}

/// Law: for every event kind other than the permission and typing-state
/// ones, the derived peer id is the conversation id, read the same whether
/// it stands on the object itself or under its nested message record.
pub proof fn lemma_other_events_read_conversation_id(
    event: Event,
    id: i64,
    flat: Object,
    nested: Object,
)
    requires
        event != Event::MessageAllow,
        event != Event::MessageTypingState,
        flat.peer_id == Some(id),
        nested.peer_id is None,
        nested.message is Some,
        nested.message.unwrap().peer_id == Some(id),
    ensures
        spec_derive_peer_id(event, flat) == Some(id),
        spec_derive_peer_id(event, nested) == Some(id),
{
}

/// Law: an object that carries the conversation id neither on itself nor
/// under a message record derives no peer id for an ordinary event, so
/// construction reports an error instead of yielding a context.
pub proof fn lemma_missing_identifier_is_rejected(event: Event, o: Object)
    requires
        event != Event::MessageAllow,
        event != Event::MessageTypingState,
        o.peer_id is None,
        o.message is Some ==> o.message.unwrap().peer_id is None,
    ensures
        spec_derive_peer_id(event, o) is None,
{
}

} // verus!
