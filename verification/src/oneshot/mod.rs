//! A channel for a single value whose sending half can be used as a sink.

use crate::effects::makes_channel;
use vstd::prelude::*;

pub mod sink;
pub mod stream;

pub use sink::Sender;
pub use stream::Receiver;

verus! {

/// Makes a channel for one value. Its receiver is there, and its sender has not been used.
pub fn channel<T>() -> (r: (Sender<T>, Receiver<T>))
    ensures
        r.0.0 matches Some(handle) && call_ensures(
            tokio::sync::oneshot::channel::<T>,
            (),
            (handle, r.1.0),
        ),
        sink::seen_closed(r.0.0, false),
    opens_invariants [ makes_channel() ]
{
    let (tx, rx) = tokio::sync::oneshot::channel();
    (Sender::new(tx), Receiver::new(rx))
}

} // verus!
