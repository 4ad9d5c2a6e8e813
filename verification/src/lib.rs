//! Wrappers for tokio's channels whose sending halves carry the operations of an asynchronous
//! sink: wait until ready, start sending an item, flush, close.
//!
//! A contract here often has to speak of what a call into tokio returned. Other handles of a
//! channel act on it at any time, so such a result is no function of the arguments. The contracts
//! write `call_ensures(f, args, r)` for it: `r` is a possible result of a call of `f` on `args`. Such
//! a clause is proved from a call, or from what is taken on trust of one.
//!
//! A function that waits gives a future back. Its contract speaks of the value `r@` that the
//! future `r` resolves to, provided that it is awaited to its end, `r.awaited()`.
//!
//! What a function may do beyond what it returns is bounded too: see [`effects`].

pub mod effects;
pub mod external;
pub mod laws;
pub mod mpsc;
pub mod oneshot;
pub mod readiness;

mod reservation;

pub use mpsc::{channel, unbounded_channel};
