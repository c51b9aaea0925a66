//! The capability through which assembled messages leave this layer.
//!
//! The layer itself performs no transport: a `MessageSender` is injected into
//! each context, and `send` hands it one finished parameter list per call.
//! The process's real sender wraps the shared remote client (one clone of the
//! handle per context, one call in flight at a time); tests substitute a fake
//! that records what it was handed.

use vstd::prelude::*;
use crate::error::SendFailure;
use crate::params::Params;

verus! {

/// A shared handle able to deliver one "send message" call.
///
/// Cloning yields a handle to the same underlying client, so every live
/// context can address the one shared connection.
pub trait MessageSender: Sized + Clone {
    /// A new owning handle to the same shared client: one more holder,
    /// equal to this one.
    fn duplicate(&self) -> (r: Self)
        ensures
            r == *self,
    ;

    /// Delivers one outbound call with the given parameters. A sender can
    /// fail only as the transport fails — the lock, or the remote call —
    /// and reports that failure unchanged.
    fn send_message(&self, params: &Params) -> Result<(), SendFailure>;
}

} // verus!
