//! When a bounded channel is ready for one more item.

use crate::effects::{waits, wakes_task};
use crate::reservation::waited;
use core::task::{Context, Poll};
use tokio::sync::mpsc::error::{SendError, TrySendError};
use tokio::sync::mpsc::OwnedPermit;
use tokio::sync::mpsc::Sender as TokioSender;
use vstd::prelude::*;

verus! {

/// The channel was seen open, with `n` free places or more.
pub open spec fn accepted<T>(handle: TokioSender<T>, n: usize) -> bool {
    &&& call_ensures(TokioSender::<T>::is_closed, (&handle,), false)
    &&& exists|free: usize|
        free >= n && #[trigger] call_ensures(TokioSender::<T>::capacity, (&handle,), free)
}

/// One sending handle was added to the channel: a count of them was seen, and one less before.
pub open spec fn handle_added<T>(handle: TokioSender<T>) -> bool {
    exists|n: usize|
        #[trigger] call_ensures(TokioSender::<T>::strong_count, (&handle,), n) && call_ensures(
            TokioSender::<T>::strong_count,
            (&handle,),
            (n - 1) as usize,
        )
}

/// The channel was seen closed, or else open and without a free place.
pub open spec fn refused<T>(handle: TokioSender<T>, closed: bool) -> bool {
    &&& call_ensures(TokioSender::<T>::is_closed, (&handle,), closed)
    &&& !closed ==> call_ensures(TokioSender::<T>::capacity, (&handle,), 0)
}

/// What can be said without waiting, from whether the channel is closed and from its count of
/// free places: a closed channel is an error, a free place is readiness. Of a full channel
/// nothing can be said.
pub open spec fn ready_at_once(closed: bool, capacity: usize) -> Option<
    Result<(), TrySendError<()>>,
> {
    if closed {
        Some(Err(TrySendError::Closed(())))
    } else if capacity > 0 {
        Some(Ok(()))
    } else {
        None
    }
}

/// What a wait for a free place says: a place was free, or the wait failed, or it goes on.
pub open spec fn ready_after_wait<P>(polled: Poll<Result<P, SendError<()>>>) -> Poll<
    Result<(), TrySendError<()>>,
> {
    match polled {
        Poll::Ready(Ok(_)) => Poll::Ready(Ok(())),
        Poll::Ready(Err(_)) => Poll::Ready(Err(TrySendError::Full(()))),
        Poll::Pending => Poll::Pending,
    }
}

/// The channel whose free place is waited for: that of the wait under way, or else that of the
/// sender itself.
pub open spec fn waited_channel<T>(
    handle: TokioSender<T>,
    before: Option<TokioSender<T>>,
) -> TokioSender<T> {
    match before {
        Some(channel) => channel,
        None => handle,
    }
}

/// One poll with `cx` for readiness on the channel of `handle`, which gave `r`. `before` and `after`
/// are the channels that were waited on, if any, before the poll and after it.
///
/// A closed channel is told at once, and a wait is left as it was. A free place ends the wait. On
/// a full channel the wait goes on, or begins on the channel of `handle`, and ends once it is
/// settled.
pub open spec fn ready_step<T>(
    handle: TokioSender<T>,
    before: Option<TokioSender<T>>,
    cx: Context<'_>,
    r: Poll<Result<(), TrySendError<()>>>,
    after: Option<TokioSender<T>>,
) -> bool {
    ||| {
        &&& refused(handle, true)
        &&& r == Poll::Ready(Err::<(), _>(TrySendError::Closed(())))
        &&& after == before
    }
    ||| {
        &&& accepted(handle, 1)
        &&& r == Poll::Ready(Ok::<_, TrySendError<()>>(()))
        &&& after is None
    }
    ||| {
        &&& refused(handle, false)
        &&& exists|polled: Poll<Result<OwnedPermit<T>, SendError<()>>>|
            {
                &&& #[trigger] waited(waited_channel(handle, before), cx, polled)
                &&& polled matches Poll::Ready(reserved) ==> call_ensures(
                    TokioSender::<T>::is_closed,
                    (&waited_channel(handle, before),),
                    reserved is Err,
                )
                &&& r == ready_after_wait(polled)
            }
        &&& after == if r is Pending {
            Some(waited_channel(handle, before))
        } else {
            None
        }
    }
}

/// The effects that one poll with `cx` for readiness on the channel of `handle` may have, where
/// `before` is the channel that was waited on, if any.
///
/// It may wake a task once the channel was seen open with a free place, or a wait came to a place.
/// It may go on with a wait once the channel was seen open without a free place, and do whatever it
/// takes to begin one. Until it has seen either, it does nothing but look: what it sees of the
/// channel is what the channel was when the poll began.
pub open spec fn ready_effects<T>(
    handle: TokioSender<T>,
    before: Option<TokioSender<T>>,
    cx: Context<'_>,
) -> Set<int> {
    Set::new(
        |effect: int|
            {
                ||| effect == wakes_task() && accepted(handle, 1)
                ||| effect == wakes_task() && exists|permit: OwnedPermit<T>| #[trigger]
                    waited(waited_channel(handle, before), cx, Poll::Ready(Ok(permit)))
                ||| effect == waits() && refused(handle, false)
                ||| before is None && refused(handle, false)
            },
    )
}

/// Whether a task that polled for readiness and was given `r` is woken: it is when the channel is
/// ready.
pub fn wakes(r: &Poll<Result<(), TrySendError<()>>>) -> (b: bool)
    ensures
        b == (*r matches Poll::Ready(Ok(_))),
    opens_invariants none
{
    match r {
        Poll::Ready(Ok(())) => true,
        _ => false,
    }
}

/// What can be said of readiness without waiting.
pub fn check_at_once(closed: bool, capacity: usize) -> (r: Option<Result<(), TrySendError<()>>>)
    ensures
        r == ready_at_once(closed, capacity),
    opens_invariants none
{
    if closed {
        return Some(Err(TrySendError::Closed(())));
    }
    if capacity > 0 {
        return Some(Ok(()));
    }
    None
}

/// What a wait for a free place says of readiness. The place itself is given up.
pub fn settle_wait<P>(polled: Poll<Result<P, SendError<()>>>) -> (r: Poll<
    Result<(), TrySendError<()>>,
>)
    ensures
        r == ready_after_wait(polled),
    opens_invariants none
{
    match polled {
        Poll::Ready(Ok(_permit)) => Poll::Ready(Ok(())),
        Poll::Ready(Err(_)) => Poll::Ready(Err(TrySendError::Full(()))),
        Poll::Pending => Poll::Pending,
    }
}

} // verus!
