//! Sending halves of tokio's channels for many values.

use crate::effects::{
    adds_weak_handle, makes_channel, puts_item, reserves_places, takes_place, takes_places, waits,
};
use crate::external::task::woken;
use crate::readiness::{
    accepted, check_at_once, handle_added, ready_effects, ready_step, refused, settle_wait,
    waited_channel, wakes,
};
use crate::reservation::{waited, Reservation};
use core::future::Future;
use core::task::{Context, Poll};
use core::time::Duration;
use tokio::sync::mpsc::Receiver as TokioReceiver;
use tokio::sync::mpsc::Sender as TokioSender;
use tokio::sync::mpsc::UnboundedSender as TokioUnboundedSender;
use tokio::sync::mpsc::{
    OwnedPermit, Permit, PermitIterator, UnboundedReceiver, WeakSender,
    WeakUnboundedSender,
};
use tokio_stream::wrappers::{ReceiverStream, UnboundedReceiverStream};
use vstd::future::FutureAdditionalSpecFns;
use vstd::prelude::*;

pub use tokio::sync::mpsc::error;
pub use tokio::sync::mpsc::error::{SendError, SendTimeoutError, TryRecvError, TrySendError};

verus! {

/// A sending half of a bounded channel that can be polled for readiness.
#[verifier::reject_recursive_types(T)]
pub struct Sender<T> {
    inner: TokioSender<T>,
    // The wait for a free place, kept across polls so that its task stays registered.
    reservation: Option<Reservation<T>>,
}

/// What a failed attempt to send says, without the item.
pub open spec fn without_item<T>(sent: Result<(), TrySendError<T>>) -> Result<(), TrySendError<()>> {
    match sent {
        Ok(()) => Ok(()),
        Err(TrySendError::Closed(_)) => Err(TrySendError::Closed(())),
        Err(TrySendError::Full(_)) => Err(TrySendError::Full(())),
    }
}

/// What a failed attempt to send says. The item is given up.
pub fn drop_item<T>(sent: Result<(), TrySendError<T>>) -> (r: Result<(), TrySendError<()>>)
    ensures
        r == without_item(sent),
    opens_invariants none
{
    match sent {
        Ok(()) => Ok(()),
        Err(TrySendError::Closed(_item)) => Err(TrySendError::Closed(())),
        Err(TrySendError::Full(_item)) => Err(TrySendError::Full(())),
    }
}

/// What a sink says of an item that a bounded channel did not take: only that it was not sent.
pub fn not_sent(_e: TrySendError<()>) -> (r: SendError<()>)
    ensures
        r == SendError(()),
    opens_invariants none
{
    SendError(())
}

impl<T> Sender<T> {
    /// The handle of the channel that is wrapped.
    pub closed spec fn handle(&self) -> TokioSender<T> {
        self.inner
    }

    /// The channel whose free place is waited for, if there is a wait.
    pub closed spec fn waits_on(&self) -> Option<TokioSender<T>> {
        match self.reservation {
            Some(reservation) => Some(reservation.waits_on()),
            None => None,
        }
    }

    /// The wait, if there is one, holds a future that `reserve_owned` gave on the channel that is
    /// waited on, and every poll of the wait polls that future.
    pub closed spec fn wait_is_live(&self) -> bool {
        self.reservation matches Some(reservation) ==> reservation.is_live()
    }

    /// Wraps a handle.
    pub fn new(sender: TokioSender<T>) -> (r: Self)
        ensures
            r.handle() == sender,
            r.waits_on() is None,
            r.wait_is_live(),
        opens_invariants none
    {
        Sender { inner: sender, reservation: None }
    }

    /// Gives the wrapped handle back.
    pub fn into_inner(self) -> (r: TokioSender<T>)
        ensures
            r == self.handle(),
        opens_invariants none
    {
        self.inner
    }

    /// Is done once the channel is closed.
    pub fn closed<'a>(&'a self) -> (r: impl Future<Output = ()> + 'a)
        ensures
            exists|f|
                #[trigger] call_ensures(TokioSender::<T>::closed, (&self.handle(),), f) && f.awaited()
                    == r.awaited(),
            r.awaited() ==> call_ensures(TokioSender::<T>::is_closed, (&self.handle(),), true),
        opens_invariants [ waits() ]
    {
        let f = self.inner.closed();
        assert(call_ensures(TokioSender::<T>::closed, (&self.handle(),), f));
        f
    }

    /// Waits for `n` free places and takes them.
    pub fn reserve_many<'a>(&'a self, n: usize) -> (r: impl Future<
        Output = Result<PermitIterator<'a, T>, SendError<()>>,
    > + 'a)
        ensures
            exists|f|
                #[trigger] call_ensures(TokioSender::<T>::reserve_many, (&self.handle(), n), f)
                    && f.awaited() == r.awaited() && f@ == r@,
            r.awaited() && r@ is Ok ==> (forall|max: usize|
                #[trigger] call_ensures(TokioSender::<T>::max_capacity, (&self.handle(),), max) ==> n
                    <= max),
            r.awaited() ==> match r@ {
                Ok(_) => call_ensures(TokioSender::<T>::is_closed, (&self.handle(),), false),
                Err(_) => forall|max: usize|
                    #[trigger] call_ensures(TokioSender::<T>::max_capacity, (&self.handle(),), max)
                        && n <= max ==> call_ensures(
                        TokioSender::<T>::is_closed,
                        (&self.handle(),),
                        true,
                    ),
            },
        opens_invariants [ reserves_places() ]
    {
        self.inner.reserve_many(n)
    }

    /// Waits for a free place and takes it, giving up the sender.
    pub fn reserve_owned(self) -> (r: impl Future<Output = Result<OwnedPermit<T>, SendError<()>>>)
        ensures
            exists|f|
                #[trigger] call_ensures(TokioSender::<T>::reserve_owned, (self.handle(),), f)
                    && f.awaited() == r.awaited() && f@ == r@,
            r.awaited() ==> call_ensures(TokioSender::<T>::is_closed, (&self.handle(),), r@ is Err),
        opens_invariants [ reserves_places() ]
    {
        let ghost handle = self.handle();
        let f = self.inner.reserve_owned();
        assert(call_ensures(TokioSender::<T>::reserve_owned, (handle,), f));
        f
    }

    /// Waits for a free place and takes it.
    pub fn reserve<'a>(&'a self) -> (r: impl Future<
        Output = Result<Permit<'a, T>, SendError<()>>,
    > + 'a)
        ensures
            exists|f|
                #[trigger] call_ensures(TokioSender::<T>::reserve, (&self.handle(),), f)
                    && f.awaited() == r.awaited() && f@ == r@,
            r.awaited() ==> call_ensures(TokioSender::<T>::is_closed, (&self.handle(),), r@ is Err),
        opens_invariants [ reserves_places() ]
    {
        let f = self.inner.reserve();
        assert(call_ensures(TokioSender::<T>::reserve, (&self.handle(),), f));
        f
    }

    /// Waits for a free place and puts the value there. The value comes back if the channel is
    /// closed.
    pub fn send<'a>(&'a self, value: T) -> (r: impl Future<Output = Result<(), SendError<T>>> + 'a)
        ensures
            exists|f|
                #[trigger] call_ensures(TokioSender::<T>::send, (&self.handle(), value), f)
                    && f.awaited() == r.awaited() && f@ == r@,
            r.awaited() ==> (r@ matches Err(e) ==> e.0 == value),
            r.awaited() ==> call_ensures(TokioSender::<T>::is_closed, (&self.handle(),), r@ is Err),
        opens_invariants [ puts_item() ]
    {
        self.inner.send(value)
    }

    /// Waits for a free place, for a limited time, and puts the value there. The value comes back
    /// if the channel is closed or the time is over. It must be awaited where a tokio runtime with
    /// a timer runs.
    pub fn send_timeout<'a>(&'a self, value: T, timeout: Duration) -> (r: impl Future<
        Output = Result<(), SendTimeoutError<T>>,
    > + 'a)
        ensures
            exists|f|
                #[trigger] call_ensures(
                    TokioSender::<T>::send_timeout,
                    (&self.handle(), value, timeout),
                    f,
                ) && f.awaited() == r.awaited() && f@ == r@,
            r.awaited() ==> match r@ {
                Ok(_) => call_ensures(TokioSender::<T>::is_closed, (&self.handle(),), false),
                Err(SendTimeoutError::Closed(back)) => back == value && call_ensures(
                    TokioSender::<T>::is_closed,
                    (&self.handle(),),
                    true,
                ),
                Err(SendTimeoutError::Timeout(back)) => back == value,
            },
        opens_invariants [ puts_item() ]
    {
        self.inner.send_timeout(value, timeout)
    }

    /// The count of free places at this moment.
    pub fn capacity(&self) -> (n: usize)
        ensures
            call_ensures(TokioSender::<T>::capacity, (&self.handle(),), n),
            forall|max: usize|
                #[trigger] call_ensures(TokioSender::<T>::max_capacity, (&self.handle(),), max) ==> n
                    <= max,
        opens_invariants none
    {
        self.inner.capacity()
    }

    /// A handle that does not keep the channel open.
    pub fn downgrade(&self) -> (r: WeakSender<T>)
        ensures
            call_ensures(TokioSender::<T>::downgrade, (&self.handle(),), r),
        opens_invariants [ adds_weak_handle() ]
    {
        self.inner.downgrade()
    }

    /// Whether the channel is closed.
    pub fn is_closed(&self) -> (r: bool)
        ensures
            call_ensures(TokioSender::<T>::is_closed, (&self.handle(),), r),
        opens_invariants none
    {
        self.inner.is_closed()
    }

    /// The count of places that the channel was made with.
    pub fn max_capacity(&self) -> (n: usize)
        ensures
            call_ensures(TokioSender::<T>::max_capacity, (&self.handle(),), n),
        opens_invariants none
    {
        self.inner.max_capacity()
    }

    /// Whether two senders belong to the same channel.
    pub fn same_channel(&self, other: &Self) -> (r: bool)
        ensures
            r == (self.handle() == other.handle()),
        opens_invariants none
    {
        self.inner.same_channel(&other.inner)
    }

    /// The count of sending handles of the channel at this moment.
    pub fn strong_count(&self) -> (n: usize)
        ensures
            call_ensures(TokioSender::<T>::strong_count, (&self.handle(),), n),
            n >= 1,
        opens_invariants none
    {
        self.inner.strong_count()
    }

    /// Takes `n` free places if there are as many.
    pub fn try_reserve_many<'a>(&'a self, n: usize) -> (r: Result<
        PermitIterator<'a, T>,
        TrySendError<()>,
    >)
        ensures
            call_ensures(TokioSender::<T>::try_reserve_many, (&self.handle(), n), r),
            r matches Err(TrySendError::Full(_)) || (forall|max: usize|
                #[trigger] call_ensures(TokioSender::<T>::max_capacity, (&self.handle(),), max) ==> n
                    <= max),
            match r {
                Ok(_) => accepted(self.handle(), n),
                Err(TrySendError::Full(_)) => forall|max: usize|
                    #[trigger] call_ensures(TokioSender::<T>::max_capacity, (&self.handle(),), max)
                        && n <= max ==> call_ensures(
                        TokioSender::<T>::is_closed,
                        (&self.handle(),),
                        false,
                    ) && exists|free: usize|
                        free < n && #[trigger] call_ensures(
                            TokioSender::<T>::capacity,
                            (&self.handle(),),
                            free,
                        ),
                Err(TrySendError::Closed(_)) => call_ensures(
                    TokioSender::<T>::is_closed,
                    (&self.handle(),),
                    true,
                ),
            },
        opens_invariants [ takes_places() ]
    {
        self.inner.try_reserve_many(n)
    }

    /// What an attempt to take a place says, with a handle that comes back wrapped again.
    pub open spec fn rewrapped(
        tried: Result<OwnedPermit<T>, TrySendError<TokioSender<T>>>,
        r: Result<OwnedPermit<T>, TrySendError<Self>>,
    ) -> bool {
        match (tried, r) {
            (Ok(permit), Ok(same)) => permit == same,
            (Err(TrySendError::Closed(handle)), Err(TrySendError::Closed(sender))) => sender.handle()
                == handle && sender.waits_on() is None && sender.wait_is_live(),
            (Err(TrySendError::Full(handle)), Err(TrySendError::Full(sender))) => sender.handle()
                == handle && sender.waits_on() is None && sender.wait_is_live(),
            _ => false,
        }
    }

    /// Wraps the handle that a failed attempt to take a place gave back.
    pub fn rewrap(tried: Result<OwnedPermit<T>, TrySendError<TokioSender<T>>>) -> (r: Result<
        OwnedPermit<T>,
        TrySendError<Self>,
    >)
        ensures
            Self::rewrapped(tried, r),
        opens_invariants none
    {
        match tried {
            Ok(permit) => Ok(permit),
            Err(TrySendError::Closed(handle)) => Err(TrySendError::Closed(Self::new(handle))),
            Err(TrySendError::Full(handle)) => Err(TrySendError::Full(Self::new(handle))),
        }
    }

    /// Takes a free place if there is one, giving up the sender. Otherwise the sender comes back.
    pub fn try_reserve_owned(self) -> (r: Result<OwnedPermit<T>, TrySendError<Self>>)
        ensures
            exists|tried: Result<OwnedPermit<T>, TrySendError<TokioSender<T>>>|
                #[trigger] call_ensures(TokioSender::<T>::try_reserve_owned, (self.handle(),), tried)
                    && Self::rewrapped(tried, r),
            match r {
                Ok(_) => accepted(self.handle(), 1),
                Err(TrySendError::Full(sender)) => sender.handle() == self.handle() && refused(
                    self.handle(),
                    false,
                ),
                Err(TrySendError::Closed(sender)) => sender.handle() == self.handle() && refused(
                    self.handle(),
                    true,
                ),
            },
        opens_invariants [ takes_place() ]
    {
        let ghost handle = self.handle();
        let tried = self.inner.try_reserve_owned();
        assert(call_ensures(TokioSender::<T>::try_reserve_owned, (handle,), tried));
        Self::rewrap(tried)
    }

    /// Takes a free place if there is one.
    pub fn try_reserve<'a>(&'a self) -> (r: Result<Permit<'a, T>, TrySendError<()>>)
        ensures
            call_ensures(TokioSender::<T>::try_reserve, (&self.handle(),), r),
            match r {
                Ok(_) => accepted(self.handle(), 1),
                Err(TrySendError::Full(_)) => refused(self.handle(), false),
                Err(TrySendError::Closed(_)) => refused(self.handle(), true),
            },
        opens_invariants [ takes_place() ]
    {
        self.inner.try_reserve()
    }

    /// Puts the message into the channel if there is a free place. Otherwise the message comes
    /// back.
    pub fn try_send(&self, message: T) -> (r: Result<(), TrySendError<T>>)
        ensures
            call_ensures(TokioSender::<T>::try_send, (&self.handle(), message), r),
            match r {
                Ok(_) => accepted(self.handle(), 1),
                Err(TrySendError::Full(m)) => m == message && refused(self.handle(), false),
                Err(TrySendError::Closed(m)) => m == message && refused(self.handle(), true),
            },
        opens_invariants [ puts_item() ]
    {
        self.inner.try_send(message)
    }

    /// The count of weak handles of the channel at this moment.
    pub fn weak_count(&self) -> (n: usize)
        ensures
            call_ensures(TokioSender::<T>::weak_count, (&self.handle(),), n),
        opens_invariants none
    {
        self.inner.weak_count()
    }

    /// After a pending poll with `cx` that began with the sender `before`, the sender `after` keeps
    /// the very wait that was polled with `cx`. That was the wait of `before`, or else one begun on
    /// its channel. It holds its future, and that is what was polled.
    pub closed spec fn keeps_polled(before: Self, cx: Context<'_>, after: Self) -> bool where
        T: Send + 'static,
     {
        exists|
            w: Reservation<T>,
            c: &mut Context<'_>,
            p: (Poll<Result<OwnedPermit<T>, SendError<()>>>, Option<Reservation<T>>),
        |
            {
                &&& *c == cx
                &&& #[trigger] call_ensures(Reservation::<T>::poll, (w, c), p)
                &&& p.0 is Pending
                &&& w.is_live()
                &&& w.polled(cx, Poll::Pending)
                &&& after.reservation == Some(w)
                &&& match before.reservation {
                    Some(held) => w == held,
                    None => call_ensures(Reservation::<T>::start, (before.inner,), w),
                }
            }
    }

    /// Polls for a free place. On a full channel the task is woken when a place becomes free. A
    /// task that is told that the channel is ready is woken too.
    pub fn poll_ready(&mut self, cx: &mut Context<'_>) -> (r: Poll<
        Result<(), TrySendError<()>>,
    >) where T: Send + 'static
        ensures
            ready_step(
                old(self).handle(),
                old(self).waits_on(),
                *old(cx),
                r,
                final(self).waits_on(),
            ),
            r is Pending ==> Self::keeps_polled(*old(self), *old(cx), *final(self)),
            r is Pending && old(self).waits_on() is Some ==> *final(self) == *old(self),
            r == Poll::Ready(Err::<(), _>(TrySendError::Closed(()))) ==> *final(self) == *old(self),
            r matches Poll::Ready(Ok(_)) ==> woken(old(cx)),
            final(self).handle() == old(self).handle(),
            final(self).wait_is_live(),
        opens_invariants ready_effects(old(self).handle(), old(self).waits_on(), *old(cx))
    {
        if let Some(reservation) = &self.reservation {
            proof {
                use_type_invariant(reservation);
            }
        }
        let waker = cx.waker();
        let closed = self.inner.is_closed();
        let capacity: usize = if closed {
            0
        } else {
            self.inner.capacity()
        };
        let r = match check_at_once(closed, capacity) {
            Some(Err(e)) => Poll::Ready(Err(e)),
            Some(Ok(())) => {
                assert(accepted(old(self).handle(), 1));
                self.reservation = None;
                Poll::Ready(Ok(()))
            },
            None => {
                let mut held: Option<Reservation<T>> = None;
                core::mem::swap(&mut held, &mut self.reservation);
                let reservation = match held {
                    Some(reservation) => reservation,
                    None => Reservation::start(self.inner.clone()),
                };
                let ghost w = reservation;
                let p = reservation.poll(cx);
                assert(exists|c: &mut Context<'_>|
                    *c == *old(cx) && #[trigger] call_ensures(Reservation::<T>::poll, (w, c), p));
                let (polled, kept) = p;
                assert(waited(
                    waited_channel(old(self).handle(), old(self).waits_on()),
                    *old(cx),
                    polled,
                ));
                assert(polled matches Poll::Ready(Ok(permit)) ==> waited(
                    waited_channel(old(self).handle(), old(self).waits_on()),
                    *old(cx),
                    Poll::Ready(Ok(permit)),
                ));
                self.reservation = kept;
                settle_wait(polled)
            },
        };
        if wakes(&r) {
            waker.wake_by_ref();
        }
        r
    }

    /// Puts the item into the channel if there is a free place. Otherwise the item is lost.
    pub fn start_send(&mut self, item: T) -> (r: Result<(), TrySendError<()>>)
        ensures
            exists|sent: Result<(), TrySendError<T>>|
                #[trigger] call_ensures(TokioSender::<T>::try_send, (&old(self).handle(), item), sent)
                    && r == without_item(sent),
            match r {
                Ok(_) => accepted(old(self).handle(), 1),
                Err(TrySendError::Full(_)) => refused(old(self).handle(), false),
                Err(TrySendError::Closed(_)) => refused(old(self).handle(), true),
            },
            *final(self) == *old(self),
        opens_invariants [ puts_item() ]
    {
        drop_item(self.inner.try_send(item))
    }

    /// Nothing is held back on the way to the channel, so there is nothing to flush.
    pub fn poll_flush(&mut self, _cx: &mut Context<'_>) -> (r: Poll<Result<(), TrySendError<()>>>)
        ensures
            r == Poll::Ready(Ok::<_, TrySendError<()>>(())),
            *final(self) == *old(self),
            *final(_cx) == *old(_cx),
        opens_invariants none
    {
        Poll::Ready(Ok(()))
    }

    /// The channel is closed by dropping the sender, so there is nothing to wait for.
    pub fn poll_close(&mut self, _cx: &mut Context<'_>) -> (r: Poll<Result<(), TrySendError<()>>>)
        ensures
            r == Poll::Ready(Ok::<_, TrySendError<()>>(())),
            *final(self) == *old(self),
            *final(_cx) == *old(_cx),
        opens_invariants none
    {
        Poll::Ready(Ok(()))
    }
}

impl<T> AsRef<TokioSender<T>> for Sender<T> {
    fn as_ref(&self) -> (r: &TokioSender<T>)
        ensures
            *r == self.handle(),
    {
        &self.inner
    }
}

impl<T> AsMut<TokioSender<T>> for Sender<T> {
    fn as_mut(&mut self) -> (r: &mut TokioSender<T>)
        ensures
            *r == old(self).handle(),
            final(self).handle() == *final(r),
            final(self).waits_on() == old(self).waits_on(),
            old(self).wait_is_live() ==> final(self).wait_is_live(),
    {
        &mut self.inner
    }
}

impl<T> Clone for Sender<T> {
    /// One more sender of the same channel. It waits for nothing.
    fn clone(&self) -> (r: Self)
        ensures
            r.handle() == self.handle(),
            r.waits_on() is None,
            r.wait_is_live(),
            handle_added(self.handle()),
    {
        Sender { inner: self.inner.clone(), reservation: None }
    }
}

impl<T> From<TokioSender<T>> for Sender<T> {
    fn from(sender: TokioSender<T>) -> (r: Self)
        ensures
            r.handle() == sender,
            r.waits_on() is None,
            r.wait_is_live(),
    {
        Self::new(sender)
    }
}

impl<T> vstd::std_specs::convert::FromSpecImpl<TokioSender<T>> for Sender<T> {
    open spec fn obeys_from_spec() -> bool {
        true
    }

    closed spec fn from_spec(sender: TokioSender<T>) -> Self {
        Sender { inner: sender, reservation: None }
    }
}

/// A sending half of an unbounded channel.
#[derive(Debug)]
#[verifier::reject_recursive_types(T)]
pub struct UnboundedSender<T>(pub TokioUnboundedSender<T>);

impl<T> UnboundedSender<T> {
    /// Wraps a handle.
    pub fn new(sender: TokioUnboundedSender<T>) -> (r: Self)
        ensures
            r.0 == sender,
        opens_invariants none
    {
        UnboundedSender(sender)
    }

    /// Gives the wrapped handle back.
    pub fn into_inner(self) -> (r: TokioUnboundedSender<T>)
        ensures
            r == self.0,
        opens_invariants none
    {
        self.0
    }

    /// Is done once the channel is closed.
    pub fn closed<'a>(&'a self) -> (r: impl Future<Output = ()> + 'a)
        ensures
            exists|f|
                #[trigger] call_ensures(TokioUnboundedSender::<T>::closed, (&self.0,), f)
                    && f.awaited() == r.awaited(),
            r.awaited() ==> call_ensures(TokioUnboundedSender::<T>::is_closed, (&self.0,), true),
        opens_invariants [ waits() ]
    {
        self.0.closed()
    }

    /// A handle that does not keep the channel open.
    pub fn downgrade(&self) -> (r: WeakUnboundedSender<T>)
        ensures
            call_ensures(TokioUnboundedSender::<T>::downgrade, (&self.0,), r),
        opens_invariants [ adds_weak_handle() ]
    {
        self.0.downgrade()
    }

    /// Whether the channel is closed.
    pub fn is_closed(&self) -> (r: bool)
        ensures
            call_ensures(TokioUnboundedSender::<T>::is_closed, (&self.0,), r),
        opens_invariants none
    {
        self.0.is_closed()
    }

    /// Whether two senders belong to the same channel.
    pub fn same_channel(&self, other: &Self) -> (r: bool)
        ensures
            r == (self.0 == other.0),
        opens_invariants none
    {
        self.0.same_channel(&other.0)
    }

    /// Puts the message into the channel. The message comes back if the channel is closed.
    pub fn send(&self, message: T) -> (r: Result<(), SendError<T>>)
        ensures
            call_ensures(TokioUnboundedSender::<T>::send, (&self.0, message), r),
            r matches Err(e) ==> e.0 == message,
            call_ensures(TokioUnboundedSender::<T>::is_closed, (&self.0,), r is Err),
        opens_invariants [ puts_item() ]
    {
        self.0.send(message)
    }

    /// The count of sending handles of the channel at this moment.
    pub fn strong_count(&self) -> (n: usize)
        ensures
            call_ensures(TokioUnboundedSender::<T>::strong_count, (&self.0,), n),
            n >= 1,
        opens_invariants none
    {
        self.0.strong_count()
    }

    /// The count of weak handles of the channel at this moment.
    pub fn weak_count(&self) -> (n: usize)
        ensures
            call_ensures(TokioUnboundedSender::<T>::weak_count, (&self.0,), n),
        opens_invariants none
    {
        self.0.weak_count()
    }

    /// There is always room for one more item.
    pub fn poll_ready(&mut self, _cx: &mut Context<'_>) -> (r: Poll<Result<(), SendError<T>>>)
        ensures
            r == Poll::Ready(Ok::<_, SendError<T>>(())),
            *final(self) == *old(self),
            *final(_cx) == *old(_cx),
        opens_invariants none
    {
        Poll::Ready(Ok(()))
    }

    /// Puts the item into the channel. The item comes back if the channel is closed.
    pub fn start_send(&mut self, item: T) -> (r: Result<(), SendError<T>>)
        ensures
            call_ensures(TokioUnboundedSender::<T>::send, (&old(self).0, item), r),
            r matches Err(e) ==> e.0 == item,
            call_ensures(TokioUnboundedSender::<T>::is_closed, (&old(self).0,), r is Err),
            *final(self) == *old(self),
        opens_invariants [ puts_item() ]
    {
        self.0.send(item)
    }

    /// Nothing is held back on the way to the channel, so there is nothing to flush.
    pub fn poll_flush(&mut self, _cx: &mut Context<'_>) -> (r: Poll<Result<(), SendError<T>>>)
        ensures
            r == Poll::Ready(Ok::<_, SendError<T>>(())),
            *final(self) == *old(self),
            *final(_cx) == *old(_cx),
        opens_invariants none
    {
        Poll::Ready(Ok(()))
    }

    /// The channel is closed by dropping the sender, so there is nothing to wait for.
    pub fn poll_close(&mut self, _cx: &mut Context<'_>) -> (r: Poll<Result<(), SendError<T>>>)
        ensures
            r == Poll::Ready(Ok::<_, SendError<T>>(())),
            *final(self) == *old(self),
            *final(_cx) == *old(_cx),
        opens_invariants none
    {
        Poll::Ready(Ok(()))
    }
}

impl<T> AsRef<TokioUnboundedSender<T>> for UnboundedSender<T> {
    fn as_ref(&self) -> (r: &TokioUnboundedSender<T>)
        ensures
            *r == self.0,
    {
        &self.0
    }
}

impl<T> AsMut<TokioUnboundedSender<T>> for UnboundedSender<T> {
    fn as_mut(&mut self) -> (r: &mut TokioUnboundedSender<T>)
        ensures
            *r == old(self).0,
            final(self).0 == *final(r),
    {
        &mut self.0
    }
}

impl<T: Clone> Clone for UnboundedSender<T> {
    /// One more sender of the same channel.
    fn clone(&self) -> (r: Self)
        ensures
            r == *self,
            exists|n: usize|
                #[trigger] call_ensures(TokioUnboundedSender::<T>::strong_count, (&self.0,), n)
                    && call_ensures(
                    TokioUnboundedSender::<T>::strong_count,
                    (&self.0,),
                    (n - 1) as usize,
                ),
    {
        UnboundedSender(self.0.clone())
    }
}

impl<T> From<TokioUnboundedSender<T>> for UnboundedSender<T> {
    fn from(sender: TokioUnboundedSender<T>) -> (r: Self) {
        Self::new(sender)
    }
}

impl<T> vstd::std_specs::convert::FromSpecImpl<TokioUnboundedSender<T>> for UnboundedSender<T> {
    open spec fn obeys_from_spec() -> bool {
        true
    }

    open spec fn from_spec(sender: TokioUnboundedSender<T>) -> Self {
        UnboundedSender(sender)
    }
}

/// Makes a bounded channel: a sender that can be polled, and the receiver as a stream. The channel
/// has `buffer` places, at least one and at most an eighth of the largest `usize`. It is open, and all
/// its places are free.
pub fn channel<T>(buffer: usize) -> (r: (Sender<T>, ReceiverStream<T>))
    requires
        0 < buffer <= usize::MAX / 8,
    ensures
        exists|recv: TokioReceiver<T>|
            call_ensures(tokio::sync::mpsc::channel::<T>, (buffer,), (r.0.handle(), recv))
                && #[trigger] call_ensures(ReceiverStream::<T>::new, (recv,), r.1),
        r.0.waits_on() is None,
        r.0.wait_is_live(),
        forall|n: usize|
            #[trigger] call_ensures(TokioSender::<T>::max_capacity, (&r.0.handle(),), n) ==> n
                == buffer,
        call_ensures(TokioSender::<T>::max_capacity, (&r.0.handle(),), buffer),
        call_ensures(TokioSender::<T>::is_closed, (&r.0.handle(),), false),
        call_ensures(TokioSender::<T>::capacity, (&r.0.handle(),), buffer),
        call_ensures(TokioSender::<T>::strong_count, (&r.0.handle(),), 1),
        call_ensures(TokioSender::<T>::weak_count, (&r.0.handle(),), 0),
    opens_invariants [ makes_channel() ]
{
    let (tx, rx) = tokio::sync::mpsc::channel(buffer);
    let ghost recv = rx;
    let r = (Sender::new(tx), ReceiverStream::new(rx));
    assert(call_ensures(tokio::sync::mpsc::channel::<T>, (buffer,), (r.0.handle(), recv)));
    assert(call_ensures(ReceiverStream::<T>::new, (recv,), r.1));
    r
}

/// Makes an unbounded channel, which is open: a sender, and the receiver as a stream.
pub fn unbounded_channel<T>() -> (r: (UnboundedSender<T>, UnboundedReceiverStream<T>))
    ensures
        exists|recv: UnboundedReceiver<T>|
            call_ensures(tokio::sync::mpsc::unbounded_channel::<T>, (), (r.0.0, recv))
                && #[trigger] call_ensures(UnboundedReceiverStream::<T>::new, (recv,), r.1),
        call_ensures(TokioUnboundedSender::<T>::is_closed, (&r.0.0,), false),
        call_ensures(TokioUnboundedSender::<T>::strong_count, (&r.0.0,), 1),
        call_ensures(TokioUnboundedSender::<T>::weak_count, (&r.0.0,), 0),
    opens_invariants [ makes_channel() ]
{
    let (tx, rx) = tokio::sync::mpsc::unbounded_channel();
    let ghost recv = rx;
    let r = (UnboundedSender::new(tx), UnboundedReceiverStream::new(rx));
    assert(call_ensures(tokio::sync::mpsc::unbounded_channel::<T>, (), (r.0.0, recv)));
    assert(call_ensures(UnboundedReceiverStream::<T>::new, (recv,), r.1));
    r
}

} // verus!
