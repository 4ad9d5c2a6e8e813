//! What a call may do to a channel and to the tasks at its ends.
//!
//! Each kind of effect has a number. A function names the effects that it may have in its
//! `opens_invariants` clause: Verus then lets it call only what may have no others. No invariant is
//! opened anywhere in the library, so the clause is free to say this, and of the functions that are
//! taken on trust it claims no more than is so: they open none.
//!
//! A function without the clause may do anything. Such are the functions of a trait of std, `clone` of
//! a handle among them, and `Box::new`: their clauses are not this library's to give. Dropping a value
//! gives back what it held; it has no number. How often a function has an effect is not said.

use vstd::prelude::*;

verus! {

/// One item is put into a channel.
pub open spec fn puts_item() -> int {
    1
}

/// One free place of a channel is taken at once.
pub open spec fn takes_place() -> int {
    2
}

/// Several free places of a channel are taken at once.
pub open spec fn takes_places() -> int {
    3
}

/// A future is made that waits for free places of a channel and takes them.
pub open spec fn reserves_places() -> int {
    4
}

/// A weak handle is added to a channel.
pub open spec fn adds_weak_handle() -> int {
    5
}

/// A channel is made.
pub open spec fn makes_channel() -> int {
    6
}

/// A task is registered, to be woken later.
pub open spec fn waits() -> int {
    7
}

/// A task is woken.
pub open spec fn wakes_task() -> int {
    8
}

} // verus!
