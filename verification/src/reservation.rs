//! A wait for a free place in a bounded channel that is kept from one poll to the next.

use crate::effects::waits;
use crate::external::task::{pin_boxed, poll_boxed};
use core::future::Future;
use core::pin::Pin;
use core::task::{Context, Poll};
use tokio::sync::mpsc::error::SendError;
use tokio::sync::mpsc::OwnedPermit;
use tokio::sync::mpsc::Sender as TokioSender;
use vstd::prelude::*;

verus! {

/// A poll of `fut` with `cx` gave `r`.
spec fn poll_gave<F: Future>(fut: Pin<Box<F>>, cx: Context<'_>, r: Poll<F::Output>) -> bool {
    exists|c: &mut Context<'_>, out: Result<F::Output, Pin<Box<F>>>|
        *c == cx && #[trigger] call_ensures(poll_boxed::<F>, (fut, c), out) && match out {
            Ok(value) => r == Poll::Ready(value),
            Err(_) => r is Pending,
        }
}

/// A future that `reserve_owned` gave on `channel` was polled with `cx`, and that gave `polled`.
pub closed spec fn waited<T>(
    channel: TokioSender<T>,
    cx: Context<'_>,
    polled: Poll<Result<OwnedPermit<T>, SendError<()>>>,
) -> bool {
    exists|f, fut|
        #[trigger] call_ensures(TokioSender::<T>::reserve_owned, (channel,), f)
            && #[trigger] call_ensures(pin_boxed, (f,), fut) && poll_gave(fut, cx, polled)
}

/// A wait that can be polled, whatever future it is made of.
trait Wait<T>: Send + Sync {
    /// A poll with `cx` of what is waited for gave `r`.
    spec fn polled(&self, cx: Context<'_>, r: Poll<Result<OwnedPermit<T>, SendError<()>>>) -> bool;

    /// Goes on waiting. A pending wait stays as it is. Once this was ready, it stays pending.
    fn poll_wait(&mut self, cx: &mut Context<'_>) -> (r: Poll<Result<OwnedPermit<T>, SendError<()>>>)
        ensures
            old(self).polled(*old(cx), r),
            r is Pending ==> &*final(self) == &*old(self),
        opens_invariants [ waits() ]
    ;
}

/// The future of a wait, until it has been ready.
#[verifier::reject_recursive_types(F)]
struct Waiting<F: Future> {
    fut: Option<Pin<Box<F>>>,
}

impl<T: Send, F: Future<Output = Result<OwnedPermit<T>, SendError<()>>> + Send + Sync> Wait<
    T,
> for Waiting<F> {
    closed spec fn polled(
        &self,
        cx: Context<'_>,
        r: Poll<Result<OwnedPermit<T>, SendError<()>>>,
    ) -> bool {
        match self.fut {
            Some(fut) => poll_gave(fut, cx, r),
            None => r is Pending,
        }
    }

    fn poll_wait(&mut self, cx: &mut Context<'_>) -> (r: Poll<
        Result<OwnedPermit<T>, SendError<()>>,
    >) {
        let mut held: Option<Pin<Box<F>>> = None;
        core::mem::swap(&mut held, &mut self.fut);
        match held {
            Some(fut) => match poll_boxed(fut, cx) {
                Ok(reserved) => Poll::Ready(reserved),
                Err(fut) => {
                    self.fut = Some(fut);
                    Poll::Pending
                },
            },
            None => Poll::Pending,
        }
    }
}

/// The wait that is held: a value of its own, which leaves the reservation while it is polled.
#[verifier::reject_recursive_types(T)]
struct Held<T> {
    wait: Box<dyn Wait<T>>,
}

/// What is held polls a future that `reserve_owned` gave on `channel`.
spec fn polls_reserved<T>(channel: TokioSender<T>, held: Held<T>) -> bool {
    exists|f, fut|
        #[trigger] call_ensures(TokioSender::<T>::reserve_owned, (channel,), f)
            && #[trigger] call_ensures(pin_boxed, (f,), fut) && forall|
            cx: Context<'_>,
            r: Poll<Result<OwnedPermit<T>, SendError<()>>>,
        | #[trigger]
            held.wait.polled(cx, r) == poll_gave(fut, cx, r)
}

/// A wait for a free place. While it is pending, the task that polled it last is woken when a
/// place becomes free.
#[verifier::reject_recursive_types(T)]
pub(crate) struct Reservation<T> {
    held: Held<T>,
    channel: Ghost<TokioSender<T>>,
}

impl<T> Reservation<T> {
    /// The channel that is waited on.
    pub(crate) closed spec fn waits_on(&self) -> TokioSender<T> {
        self.channel@
    }

    /// A poll with `cx` gave `r`.
    pub(crate) closed spec fn polled(
        &self,
        cx: Context<'_>,
        r: Poll<Result<OwnedPermit<T>, SendError<()>>>,
    ) -> bool {
        self.held.wait.polled(cx, r)
    }

    /// A future that `reserve_owned` gave on the channel is held, and it is what every poll polls.
    #[verifier::type_invariant]
    pub(crate) closed spec fn is_live(&self) -> bool {
        polls_reserved(self.channel@, self.held)
    }

    /// Begins to wait for a free place in the channel of `sender`.
    pub(crate) fn start(sender: TokioSender<T>) -> (r: Self) where T: Send + 'static
        ensures
            r.waits_on() == sender,
            r.is_live(),
    {
        let ghost channel = sender;
        let f = sender.reserve_owned();
        let ghost given = f;
        let fut = pin_boxed(f);
        let waiting = Waiting { fut: Some(fut) };
        let ghost made = waiting;
        let held = Held { wait: Box::new(waiting) };
        assert(call_ensures(TokioSender::<T>::reserve_owned, (channel,), given));
        assert(call_ensures(pin_boxed, (given,), fut));
        assert forall|cx: Context<'_>, r: Poll<Result<OwnedPermit<T>, SendError<()>>>| #[trigger]
            held.wait.polled(cx, r) == poll_gave(fut, cx, r) by {
            assert(made.polled(cx, r) == poll_gave(fut, cx, r));
        }
        assert(polls_reserved(channel, held));
        Reservation { held, channel: Ghost(channel) }
    }

    /// Goes on waiting. A pending wait comes back as it is.
    pub(crate) fn poll(self, cx: &mut Context<'_>) -> (r: (
        Poll<Result<OwnedPermit<T>, SendError<()>>>,
        Option<Self>,
    ))
        ensures
            self.is_live(),
            self.polled(*old(cx), r.0),
            waited(self.waits_on(), *old(cx), r.0),
            r.0 matches Poll::Ready(reserved) ==> call_ensures(
                TokioSender::<T>::is_closed,
                (&self.waits_on(),),
                reserved is Err,
            ),
            r.1 == if r.0 is Pending {
                Some(self)
            } else {
                None
            },
        opens_invariants [ waits() ]
    {
        proof {
            use_type_invariant(&self);
        }
        let Reservation { held, channel } = self;
        let mut held = held;
        match held.wait.poll_wait(cx) {
            Poll::Ready(reserved) => (Poll::Ready(reserved), None),
            Poll::Pending => (Poll::Pending, Some(Reservation { held, channel })),
        }
    }
}

} // verus!
