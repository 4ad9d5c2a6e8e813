//! The sending half of a channel for a single value.

use crate::effects::{puts_item, waits};
use core::future::Future;
use core::task::{Context, Poll};
use tokio::sync::oneshot::Sender as TokioOnceSender;
use vstd::future::FutureAdditionalSpecFns;
use vstd::prelude::*;

verus! {

/// The sending half of a channel for a single value, until it has been used.
#[derive(Debug)]
#[verifier::reject_recursive_types(T)]
pub struct Sender<T>(pub Option<TokioOnceSender<T>>);

/// Sending `t` through `slot` gave `r`. A handle decides for itself; where it has been used, the
/// value comes back.
pub open spec fn sent<T>(slot: Option<TokioOnceSender<T>>, t: T, r: Result<(), T>) -> bool {
    match slot {
        Some(handle) => call_ensures(TokioOnceSender::<T>::send, (handle, t), r),
        None => r == Err::<(), T>(t),
    }
}

/// Asked whether the receiver is gone, `slot` gave `r`. A handle decides for itself; where it has
/// been used, there is nobody to send to.
pub open spec fn seen_closed<T>(slot: Option<TokioOnceSender<T>>, r: bool) -> bool {
    match slot {
        Some(handle) => call_ensures(TokioOnceSender::<T>::is_closed, (&handle,), r),
        None => r,
    }
}

/// A poll with `cx` for the end of the receiver of `slot` gave `r`. A handle decides for itself;
/// where it has been used, the wait is over.
pub open spec fn polled_closed<T>(
    slot: Option<TokioOnceSender<T>>,
    cx: Context<'_>,
    r: Poll<()>,
) -> bool {
    match slot {
        Some(handle) => exists|h: &mut TokioOnceSender<T>, c: &mut Context<'_>|
            *h == handle && *c == cx && #[trigger] call_ensures(
                TokioOnceSender::<T>::poll_closed,
                (h, c),
                r,
            ),
        None => r == Poll::Ready(()),
    }
}

/// `core::future::poll_fn` on `Sender::poll_closed`, which leaves the sender as it is: a future
/// that is done once `poll_closed` is ready. The receiver is gone then, or the sender was used.
#[verifier::external_body]
fn poll_until_closed<'a, T>(sender: &'a mut Sender<T>) -> (r: impl Future<Output = ()> + 'a)
    ensures
        r.awaited() ==> seen_closed(old(sender).0, true),
        *final(sender) == *old(sender),
    opens_invariants [ waits() ]
{
    core::future::poll_fn(move |cx| sender.poll_closed(cx))
}

impl<T> Sender<T> {
    /// Wraps a handle.
    pub fn new(sender: TokioOnceSender<T>) -> (r: Self)
        ensures
            r.0 == Some(sender),
        opens_invariants none
    {
        Sender(Some(sender))
    }

    /// Gives the wrapped handle back, if it has not been used.
    pub fn into_inner(self) -> (r: Option<TokioOnceSender<T>>)
        ensures
            r == self.0,
        opens_invariants none
    {
        self.0
    }

    /// Sends the value. It comes back if the receiver is gone or the sender has been used.
    pub fn send(self, t: T) -> (r: Result<(), T>)
        ensures
            sent(self.0, t, r),
            r matches Err(back) ==> back == t,
            seen_closed(self.0, r is Err),
        opens_invariants [ puts_item() ]
    {
        match self.0 {
            Some(sender) => sender.send(t),
            None => Err(t),
        }
    }

    /// Is done once the receiver is gone, and at once if the sender has been used.
    pub fn closed<'a>(&'a mut self) -> (r: impl Future<Output = ()> + 'a)
        ensures
            r.awaited() ==> seen_closed(old(self).0, true),
            *final(self) == *old(self),
        opens_invariants [ waits() ]
    {
        poll_until_closed(self)
    }

    /// Whether the receiver is gone or the sender has been used.
    pub fn is_closed(&self) -> (r: bool)
        ensures
            seen_closed(self.0, r),
        opens_invariants none
    {
        match &self.0 {
            None => true,
            Some(inner) => inner.is_closed(),
        }
    }

    /// Polls for the end of the receiver.
    pub fn poll_closed(&mut self, cx: &mut Context<'_>) -> (r: Poll<()>)
        ensures
            polled_closed(old(self).0, *old(cx), r),
            r is Ready ==> seen_closed(old(self).0, true),
            *final(self) == *old(self),
        opens_invariants [ waits() ]
    {
        match &mut self.0 {
            Some(sender) => sender.poll_closed(cx),
            None => Poll::Ready(()),
        }
    }

    /// An attempt to send is always welcome; one that comes too late fails.
    pub fn poll_ready(&mut self, _cx: &mut Context<'_>) -> (r: Poll<Result<(), T>>)
        ensures
            r == Poll::Ready(Ok::<_, T>(())),
            *final(self) == *old(self),
            *final(_cx) == *old(_cx),
        opens_invariants none
    {
        Poll::Ready(Ok(()))
    }

    /// Sends the item, and uses the sender up. The item comes back if the receiver is gone or the
    /// sender has been used before.
    pub fn start_send(&mut self, item: T) -> (r: Result<(), T>)
        ensures
            sent(old(self).0, item, r),
            r matches Err(back) ==> back == item,
            seen_closed(old(self).0, r is Err),
            final(self).0 is None,
        opens_invariants [ puts_item() ]
    {
        let mut held: Option<TokioOnceSender<T>> = None;
        core::mem::swap(&mut held, &mut self.0);
        match held {
            Some(sender) => sender.send(item),
            None => Err(item),
        }
    }

    /// Nothing is held back on the way to the receiver, so there is nothing to flush.
    pub fn poll_flush(&mut self, _cx: &mut Context<'_>) -> (r: Poll<Result<(), T>>)
        ensures
            r == Poll::Ready(Ok::<_, T>(())),
            *final(self) == *old(self),
            *final(_cx) == *old(_cx),
        opens_invariants none
    {
        Poll::Ready(Ok(()))
    }

    /// Gives the handle up. Nothing can be sent any more.
    pub fn poll_close(&mut self, _cx: &mut Context<'_>) -> (r: Poll<Result<(), T>>)
        ensures
            r == Poll::Ready(Ok::<_, T>(())),
            final(self).0 is None,
            *final(_cx) == *old(_cx),
        opens_invariants none
    {
        self.0 = None;
        Poll::Ready(Ok(()))
    }
}

impl<T> From<TokioOnceSender<T>> for Sender<T> {
    fn from(sender: TokioOnceSender<T>) -> (r: Self) {
        Self::new(sender)
    }
}

impl<T> vstd::std_specs::convert::FromSpecImpl<TokioOnceSender<T>> for Sender<T> {
    open spec fn obeys_from_spec() -> bool {
        true
    }

    open spec fn from_spec(sender: TokioOnceSender<T>) -> Self {
        Sender(Some(sender))
    }
}

} // verus!
