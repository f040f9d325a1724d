//! Why a handler refused an event.

use vstd::prelude::*;

verus! {

/// Why a handler refused an event. None of these is ever answered to the peer
/// that sent the event.
#[derive(Debug, Clone, Copy, PartialEq, Eq)]
pub enum HandlerError {
    /// The payload did not decode into the value that the event calls for, or
    /// was not decoded as that value at all. Nothing of it is accepted.
    CorruptPayload,
    /// A validation package came as the reply to a pending request that is no
    /// request for a validation package. The table of pending requests
    /// contradicts the protocol: a fault of this node.
    UnexpectedPendingRequest,
    /// Metadata that is declared a link holds an entry of another kind: the
    /// payload was damaged on its way or the peer misbehaves.
    NotALink,
}

} // verus!
