//! Common traits for event senders and receivers.
//!
//! These carry the non-blocking halves of the traits; the waiting halves (`send`, `wait_next`)
//! are async and are provided next to the executor.
use vstd::prelude::*;

verus! {

/// Common event sender trait
pub trait Sender<E> {
    /// Attempt to send an event; returns `None` if the event cannot currently be sent.
    fn try_send(&mut self, event: E) -> Option<()>;
}

/// Common event receiver trait
pub trait Receiver<E> {
    /// Attempt to receive an event; returns `None` if there are no pending events.
    fn try_next(&mut self) -> Option<E>;
}

} // verus!
