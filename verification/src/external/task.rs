//! Polling and waking: the items of `core::task`, `core::pin` and `core::future`.

use crate::effects::{waits, wakes_task};
use core::future::Future;
use core::pin::Pin;
use core::task::{Context, Poll, Waker};
use vstd::future::FutureAdditionalSpecFns;
use vstd::prelude::*;

verus! {

/// `core::task::Poll`, with its two variants.
#[verifier::external_type_specification]
pub struct ExPoll<T>(Poll<T>);

/// `core::task::Context`, opaque.
#[verifier::external_type_specification]
#[verifier::external_body]
pub struct ExContext<'a>(Context<'a>);

/// `core::task::Waker`, opaque.
#[verifier::external_type_specification]
#[verifier::external_body]
pub struct ExWaker(Waker);

/// `core::pin::Pin`, opaque.
#[verifier::external_type_specification]
#[verifier::external_body]
#[verifier::reject_recursive_types(P)]
pub struct ExPin<P>(Pin<P>);

/// `Context::waker` gives the waker of the task that polls. Nothing more is claimed of it.
pub assume_specification<'a>[ Context::<'a>::waker ](cx: &Context<'a>) -> (w: &'a Waker)
    opens_invariants none
;

/// `Waker::wake_by_ref` wakes the task of the waker. It returns nothing, and nothing is claimed.
pub assume_specification[ Waker::wake_by_ref ](w: &Waker)
    opens_invariants [ wakes_task() ]
;

/// `Box::pin` moves a future to the heap and pins it there. It resolves to the same value.
#[verifier::external_body]
pub(crate) fn pin_boxed<F: Future>(fut: F) -> (r: Pin<Box<F>>)
    ensures
        r@ == fut@,
        r.awaited() == fut.awaited(),
    opens_invariants none
{
    Box::pin(fut)
}

/// `Future::poll` on a boxed future. A future that is ready gives the value that it resolves to
/// and is gone, so that it cannot be polled again. One that is not ready comes back in the same
/// box; the value of a boxed future stands for the box, and so for all that becomes of it.
#[verifier::external_body]
pub(crate) fn poll_boxed<F: Future>(fut: Pin<Box<F>>, cx: &mut Context<'_>) -> (r: Result<
    F::Output,
    Pin<Box<F>>,
>)
    ensures
        r matches Ok(value) ==> fut.awaited() && value == fut@,
        r matches Err(again) ==> again == fut,
    opens_invariants [ waits() ]
{
    let mut fut = fut;
    match fut.as_mut().poll(cx) {
        Poll::Ready(value) => Ok(value),
        Poll::Pending => Err(fut),
    }
}

/// The task that polls with `cx` has been woken.
pub open spec fn woken(cx: &Context<'_>) -> bool {
    exists|w: &Waker|
        call_ensures(Context::<'_>::waker, (cx,), w) && #[trigger] call_ensures(
            Waker::wake_by_ref,
            (w,),
            (),
        )
}

} // verus!
