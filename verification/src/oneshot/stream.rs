//! The receiving half of a channel for a single value.

use tokio::sync::oneshot::Receiver as TokioOnceReceiver;
use vstd::prelude::*;

verus! {

/// The receiving half of a channel for a single value.
#[derive(Debug)]
#[verifier::reject_recursive_types(T)]
pub struct Receiver<T>(pub TokioOnceReceiver<T>);

impl<T> Receiver<T> {
    /// Wraps a handle.
    pub fn new(receiver: TokioOnceReceiver<T>) -> (r: Self)
        ensures
            r.0 == receiver,
        opens_invariants none
    {
        Receiver(receiver)
    }

    /// Gives the wrapped handle back.
    pub fn into_inner(self) -> (r: TokioOnceReceiver<T>)
        ensures
            r == self.0,
        opens_invariants none
    {
        self.0
    }
}

} // verus!
