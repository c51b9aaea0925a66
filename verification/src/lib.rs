//! Event-context layer for a bot built on a messaging platform's callback
//! (webhook) API.
//!
//! Each inbound callback event becomes a [`context::Context`]: it carries the
//! event kind, the event's object payload, a handle to a shared message
//! sender, and the peer id derived from the payload by event-specific rules.
//! Handler code accumulates an outgoing [`response::Response`] (text,
//! attachments, optional keyboard) and flushes it with
//! [`context::Context::send`], which assembles the outbound call's parameters
//! and hands them to the sender.

pub mod context;
pub mod error;
pub mod event;
pub mod json;
pub mod numtext;
pub mod object;
pub mod params;
pub mod response;
pub mod sender;
