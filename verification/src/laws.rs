//! What holds of several calls together.

use crate::effects::{
    adds_weak_handle, makes_channel, puts_item, reserves_places, takes_place, takes_places, waits,
    wakes_task,
};
use crate::mpsc::{Sender, UnboundedSender};
use crate::oneshot::sink::seen_closed;
use crate::oneshot::Sender as OnceSender;
use crate::readiness::{accepted, ready_effects, refused, waited_channel};
use crate::reservation::waited;
use core::task::{Context, Poll};
use core::time::Duration;
use tokio::sync::mpsc::error::{SendError, SendTimeoutError, TrySendError};
use tokio::sync::mpsc::Sender as TokioSender;
use tokio::sync::mpsc::UnboundedSender as TokioUnboundedSender;
use tokio::sync::mpsc::{OwnedPermit, Permit, PermitIterator};
use tokio::sync::oneshot::Sender as TokioOnceSender;
use tokio_stream::wrappers::ReceiverStream;
use vstd::future::FutureAdditionalSpecFns;
use vstd::prelude::*;

verus! {

/// A wrapped handle of a bounded channel comes back as it was, whether it was wrapped by `new` or
/// by `from`.
pub proof fn law_bounded_round_trip<T>(
    handle: TokioSender<T>,
    by_new: Sender<T>,
    by_from: Sender<T>,
    back: TokioSender<T>,
    back_too: TokioSender<T>,
)
    requires
        call_ensures(Sender::<T>::new, (handle,), by_new),
        call_ensures(<Sender<T> as From<TokioSender<T>>>::from, (handle,), by_from),
        call_ensures(Sender::<T>::into_inner, (by_new,), back),
        call_ensures(Sender::<T>::into_inner, (by_from,), back_too),
    ensures
        back == handle,
        back_too == handle,
{
}

/// A wrapped handle of an unbounded channel comes back as it was, whether it was wrapped by `new`
/// or by `from`.
pub proof fn law_unbounded_round_trip<T>(
    handle: TokioUnboundedSender<T>,
    by_new: UnboundedSender<T>,
    by_from: UnboundedSender<T>,
    back: TokioUnboundedSender<T>,
)
    requires
        call_ensures(UnboundedSender::<T>::new, (handle,), by_new),
        call_ensures(
            <UnboundedSender<T> as From<TokioUnboundedSender<T>>>::from,
            (handle,),
            by_from,
        ),
        call_ensures(UnboundedSender::<T>::into_inner, (by_new,), back),
    ensures
        back == handle,
        by_from == by_new,
{
}

/// A wrapped handle of a channel for one value comes back as it was while it has not been used,
/// whether it was wrapped by `new` or by `from`.
pub proof fn law_oneshot_round_trip<T>(
    handle: TokioOnceSender<T>,
    by_new: OnceSender<T>,
    by_from: OnceSender<T>,
    back: Option<TokioOnceSender<T>>,
)
    requires
        call_ensures(OnceSender::<T>::new, (handle,), by_new),
        call_ensures(<OnceSender<T> as From<TokioOnceSender<T>>>::from, (handle,), by_from),
        call_ensures(OnceSender::<T>::into_inner, (by_new,), back),
    ensures
        back == Some(handle),
        by_from == by_new,
{
}

/// `same_channel` is an equivalence between senders of bounded channels, and a clone belongs to
/// the channel of the sender that it was made from.
pub proof fn law_same_channel<T>(
    a: Sender<T>,
    b: Sender<T>,
    c: Sender<T>,
    clone: Sender<T>,
)
    requires
        call_ensures(<Sender<T> as Clone>::clone, (&a,), clone),
    ensures
        forall|r: bool| call_ensures(Sender::<T>::same_channel, (&a, &a), r) ==> r,
        forall|r: bool| call_ensures(Sender::<T>::same_channel, (&a, &clone), r) ==> r,
        forall|ab: bool, ba: bool|
            call_ensures(Sender::<T>::same_channel, (&a, &b), ab) && call_ensures(
                Sender::<T>::same_channel,
                (&b, &a),
                ba,
            ) ==> ab == ba,
        forall|ab: bool, bc: bool, ac: bool|
            call_ensures(Sender::<T>::same_channel, (&a, &b), ab) && call_ensures(
                Sender::<T>::same_channel,
                (&b, &c),
                bc,
            ) && call_ensures(Sender::<T>::same_channel, (&a, &c), ac) && ab && bc ==> ac,
{
}

/// The same of senders of unbounded channels.
pub proof fn law_same_unbounded_channel<T: Clone>(
    a: UnboundedSender<T>,
    b: UnboundedSender<T>,
    c: UnboundedSender<T>,
    clone: UnboundedSender<T>,
)
    requires
        call_ensures(<UnboundedSender<T> as Clone>::clone, (&a,), clone),
    ensures
        forall|r: bool| call_ensures(UnboundedSender::<T>::same_channel, (&a, &a), r) ==> r,
        forall|r: bool|
            call_ensures(UnboundedSender::<T>::same_channel, (&a, &clone), r) ==> r,
        forall|ab: bool, ba: bool|
            call_ensures(UnboundedSender::<T>::same_channel, (&a, &b), ab) && call_ensures(
                UnboundedSender::<T>::same_channel,
                (&b, &a),
                ba,
            ) ==> ab == ba,
        forall|ab: bool, bc: bool, ac: bool|
            call_ensures(UnboundedSender::<T>::same_channel, (&a, &b), ab) && call_ensures(
                UnboundedSender::<T>::same_channel,
                (&b, &c),
                bc,
            ) && call_ensures(UnboundedSender::<T>::same_channel, (&a, &c), ac) && ab && bc
                ==> ac,
{
}

/// The sender of a new bounded channel and its clones tell the bound that the channel was made
/// with, never count more free places than that, and refuse as full an attempt to take more.
pub proof fn law_bound<T>(
    buffer: usize,
    made: (Sender<T>, ReceiverStream<T>),
    clone: Sender<T>,
    s: Sender<T>,
    max: usize,
    capacity: usize,
    n: usize,
    tried: Result<PermitIterator<'_, T>, TrySendError<()>>,
)
    requires
        call_ensures(crate::mpsc::channel::<T>, (buffer,), made),
        call_ensures(<Sender<T> as Clone>::clone, (&made.0,), clone),
        s == made.0 || s == clone,
        call_ensures(Sender::<T>::max_capacity, (&s,), max),
        call_ensures(Sender::<T>::capacity, (&s,), capacity),
        call_ensures(Sender::<T>::try_reserve_many, (&s, n), tried),
    ensures
        max == buffer,
        capacity <= buffer,
        n > buffer ==> (tried matches Err(TrySendError::Full(_))),
{
}

/// A poll for readiness that is pending leaves a wait, the very one that it polled with its
/// context. The next poll goes on with that same wait if it is pending too, leaves it alone if it
/// tells that the channel is closed, and has ended it otherwise. The sender stays with its channel
/// all the while, and a wait that it has always holds the future that is polled.
pub proof fn law_wait_is_kept<T: Send + 'static>(
    p: &mut Sender<T>,
    first_cx: &mut Context<'_>,
    q: &mut Sender<T>,
    second_cx: &mut Context<'_>,
    second: Poll<Result<(), TrySendError<()>>>,
)
    requires
        call_ensures(Sender::<T>::poll_ready, (p, first_cx), Poll::Pending),
        *q == *final(p),
        call_ensures(Sender::<T>::poll_ready, (q, second_cx), second),
    ensures
        Sender::<T>::keeps_polled(*old(p), *old(first_cx), *old(q)),
        old(q).waits_on() == Some(waited_channel(old(p).handle(), old(p).waits_on())),
        old(p).waits_on() is Some ==> *old(q) == *old(p),
        match second {
            Poll::Pending => *final(q) == *old(q) && Sender::<T>::keeps_polled(
                *old(q),
                *old(second_cx),
                *final(q),
            ),
            Poll::Ready(Err(TrySendError::Closed(_))) => *final(q) == *old(q),
            Poll::Ready(Err(TrySendError::Full(_))) => final(q).waits_on() is None,
            Poll::Ready(Ok(_)) => final(q).waits_on() is None,
        },
        final(q).handle() == old(p).handle(),
        old(q).wait_is_live(),
        final(q).wait_is_live(),
{
}

/// On a channel that is closed all the while, or open all the while, a poll for readiness tells
/// that the channel is closed exactly when it is, and never that it is full: a full channel is
/// waited on. A wait that was under way on another channel must not find that channel closed.
pub proof fn law_undisturbed_readiness<T: Send + 'static>(
    s: &mut Sender<T>,
    cx: &mut Context<'_>,
    r: Poll<Result<(), TrySendError<()>>>,
    closed: bool,
)
    requires
        call_ensures(Sender::<T>::poll_ready, (s, cx), r),
        old(s).waits_on() matches Some(channel) ==> channel == old(s).handle() || !call_ensures(
            TokioSender::<T>::is_closed,
            (&channel,),
            true,
        ),
        forall|seen: bool|
            #[trigger] call_ensures(TokioSender::<T>::is_closed, (&old(s).handle(),), seen) ==> seen
                == closed,
    ensures
        closed <==> (r matches Poll::Ready(Err(TrySendError::Closed(_)))),
        !(r matches Poll::Ready(Err(TrySendError::Full(_)))),
{
}

/// The effects that a function may name are told apart: one that may put an item into a channel, say,
/// may for that not take a place or wake a task.
pub proof fn law_effects_are_distinct()
    ensures
        seq![
            puts_item(),
            takes_place(),
            takes_places(),
            reserves_places(),
            adds_weak_handle(),
            makes_channel(),
            waits(),
            wakes_task(),
        ].no_duplicates(),
{
}

/// A poll for readiness of a bounded channel that is open all the while with a free place, or closed
/// all the while, tells so at once, and may do nothing else than wake a task: it takes no place and
/// adds no handle. A sender that is found ready waits no longer.
pub proof fn law_readiness_leaves_the_channel_alone<T: Send + 'static>(
    s: &mut Sender<T>,
    cx: &mut Context<'_>,
    r: Poll<Result<(), TrySendError<()>>>,
    closed: bool,
)
    requires
        call_ensures(Sender::<T>::poll_ready, (s, cx), r),
        forall|seen: bool|
            #[trigger] call_ensures(TokioSender::<T>::is_closed, (&old(s).handle(),), seen) ==> seen
                == closed,
        closed || forall|free: usize|
            #[trigger] call_ensures(TokioSender::<T>::capacity, (&old(s).handle(),), free) ==> free
                > 0,
    ensures
        closed ==> (r matches Poll::Ready(Err(TrySendError::Closed(_)))) && *final(s) == *old(s),
        !closed ==> (r matches Poll::Ready(Ok(_))) && final(s).waits_on() is None,
        final(s).handle() == old(s).handle(),
        forall|effect: int|
            #[trigger] ready_effects(old(s).handle(), old(s).waits_on(), *old(cx)).contains(effect)
                ==> effect == wakes_task(),
{
}

/// A poll for readiness that goes on with a wait may do nothing else than that and wake a task,
/// whatever it sees of the channel.
pub proof fn law_going_on_takes_nothing<T: Send + 'static>(s: &mut Sender<T>, cx: &mut Context<'_>)
    requires
        old(s).waits_on() is Some,
    ensures
        forall|effect: int|
            #[trigger] ready_effects(old(s).handle(), old(s).waits_on(), *old(cx)).contains(effect)
                ==> effect == waits() || effect == wakes_task(),
{
}

/// A poll for readiness that has not yet seen the channel may do nothing, so that what it sees is
/// what the channel was when the poll began.
pub proof fn law_readiness_looks_first<T: Send + 'static>(s: &mut Sender<T>, cx: &mut Context<'_>)
    requires
        !accepted(old(s).handle(), 1),
        !refused(old(s).handle(), false),
        forall|permit: OwnedPermit<T>|
            !#[trigger] waited(
                waited_channel(old(s).handle(), old(s).waits_on()),
                *old(cx),
                Poll::Ready(Ok(permit)),
            ),
    ensures
        ready_effects(old(s).handle(), old(s).waits_on(), *old(cx)) =~= Set::<int>::empty(),
{
}

/// A new bounded channel that nobody has used is open, all the places it was made with are free, and
/// it has one sending handle.
pub proof fn law_new_channel<T>(
    buffer: usize,
    made: (Sender<T>, ReceiverStream<T>),
    closed: bool,
    free: usize,
    handles: usize,
)
    requires
        call_ensures(crate::mpsc::channel::<T>, (buffer,), made),
        forall|seen: bool|
            #[trigger] call_ensures(TokioSender::<T>::is_closed, (&made.0.handle(),), seen) ==> seen
                == closed,
        forall|seen: usize|
            #[trigger] call_ensures(TokioSender::<T>::capacity, (&made.0.handle(),), seen) ==> seen
                == free,
        forall|seen: usize|
            #[trigger] call_ensures(TokioSender::<T>::strong_count, (&made.0.handle(),), seen) ==> seen
                == handles,
    ensures
        !closed,
        free == buffer,
        handles == 1,
{
}

/// A clone raises the count of sending handles by one: where two counts are all that is seen, the
/// greater is one more than the lesser.
pub proof fn law_clone_adds_one_handle<T>(
    s: Sender<T>,
    clone: Sender<T>,
    before: usize,
    after: usize,
)
    requires
        call_ensures(<Sender<T> as Clone>::clone, (&s,), clone),
        before <= after,
        forall|seen: usize|
            #[trigger] call_ensures(TokioSender::<T>::strong_count, (&s.handle(),), seen) ==> seen
                == before || seen == after,
    ensures
        after == before + 1,
        clone.handle() == s.handle(),
{
}

/// The same of senders of unbounded channels.
pub proof fn law_unbounded_clone_adds_one_handle<T: Clone>(
    s: UnboundedSender<T>,
    clone: UnboundedSender<T>,
    before: usize,
    after: usize,
)
    requires
        call_ensures(<UnboundedSender<T> as Clone>::clone, (&s,), clone),
        before <= after,
        forall|seen: usize|
            #[trigger] call_ensures(TokioUnboundedSender::<T>::strong_count, (&s.0,), seen) ==> seen
                == before || seen == after,
    ensures
        after == before + 1,
        clone == s,
{
}

/// On a bounded channel that is open all the while with a free place, a poll for readiness is
/// ready and an item that is then sent is taken. On one that is open all the while without a free
/// place, the item is refused because the channel is full; on one that is closed all the while, it
/// is refused because the channel is closed.
pub proof fn law_undisturbed_send<T: Send + 'static>(
    s: &mut Sender<T>,
    cx: &mut Context<'_>,
    ready: Poll<Result<(), TrySendError<()>>>,
    q: &mut Sender<T>,
    item: T,
    sent: Result<(), TrySendError<()>>,
    closed: bool,
    free: usize,
)
    requires
        call_ensures(Sender::<T>::poll_ready, (s, cx), ready),
        *q == *final(s),
        call_ensures(Sender::<T>::start_send, (q, item), sent),
        forall|seen: bool|
            #[trigger] call_ensures(TokioSender::<T>::is_closed, (&old(s).handle(),), seen) ==> seen
                == closed,
        forall|seen: usize|
            #[trigger] call_ensures(TokioSender::<T>::capacity, (&old(s).handle(),), seen) ==> seen
                == free,
    ensures
        !closed && free > 0 ==> (ready matches Poll::Ready(Ok(_))),
        !closed && free > 0 <==> sent is Ok,
        !closed && free == 0 <==> (sent matches Err(TrySendError::Full(_))),
        closed <==> (sent matches Err(TrySendError::Closed(_))),
        final(q).waits_on() == final(s).waits_on(),
{
}

/// On a bounded channel that is closed all the while, or open all the while with the same count of
/// free places, an attempt to take a place succeeds exactly when the channel is open with a free
/// place, and one to take `n` places, no more than the channel has, exactly when it is open with as
/// many. It fails as closed exactly when the channel is closed. The sender that comes back belongs to
/// the same channel.
pub proof fn law_undisturbed_reserve<T>(
    s: Sender<T>,
    n: usize,
    one: Result<Permit<'_, T>, TrySendError<()>>,
    many: Result<PermitIterator<'_, T>, TrySendError<()>>,
    owned: Result<OwnedPermit<T>, TrySendError<Sender<T>>>,
    max: usize,
    closed: bool,
    free: usize,
)
    requires
        call_ensures(Sender::<T>::try_reserve, (&s,), one),
        call_ensures(Sender::<T>::try_reserve_many, (&s, n), many),
        call_ensures(Sender::<T>::try_reserve_owned, (s,), owned),
        call_ensures(Sender::<T>::max_capacity, (&s,), max),
        n <= max,
        forall|seen: bool|
            #[trigger] call_ensures(TokioSender::<T>::is_closed, (&s.handle(),), seen) ==> seen
                == closed,
        forall|seen: usize|
            #[trigger] call_ensures(TokioSender::<T>::capacity, (&s.handle(),), seen) ==> seen == free,
    ensures
        match one {
            Ok(_) => !closed && free > 0,
            Err(TrySendError::Full(_)) => !closed && free == 0,
            Err(TrySendError::Closed(_)) => closed,
        },
        match many {
            Ok(_) => !closed && free >= n,
            Err(TrySendError::Full(_)) => !closed && free < n,
            Err(TrySendError::Closed(_)) => closed,
        },
        match owned {
            Ok(_) => !closed && free > 0,
            Err(TrySendError::Full(back)) => !closed && free == 0 && back.handle() == s.handle(),
            Err(TrySendError::Closed(back)) => closed && back.handle() == s.handle(),
        },
{
}

/// On a bounded channel that is closed all the while, or open all the while, a send that waits for a
/// place, and comes to an end, takes the value exactly when the channel is open. A send that waits for
/// a limited time takes no value of a closed channel either, and does not find an open one closed. A
/// value that is not taken comes back.
pub proof fn law_undisturbed_waiting_send<T>(s: Sender<T>, value: T, timeout: Duration, closed: bool)
    requires
        forall|seen: bool|
            #[trigger] call_ensures(TokioSender::<T>::is_closed, (&s.handle(),), seen) ==> seen
                == closed,
    ensures
        forall|f|
            #[trigger] call_ensures(Sender::<T>::send, (&s, value), f) && f.awaited() ==> match f@ {
                Ok(_) => !closed,
                Err(e) => closed && e.0 == value,
            },
        forall|f|
            #[trigger] call_ensures(Sender::<T>::send_timeout, (&s, value, timeout), f)
                && f.awaited() ==> match f@ {
                Ok(_) => !closed,
                Err(SendTimeoutError::Closed(back)) => closed && back == value,
                Err(SendTimeoutError::Timeout(back)) => back == value,
            },
{
}

/// On an unbounded channel that is closed all the while, or open all the while, a message is taken
/// exactly when the channel is open. Otherwise it comes back.
pub proof fn law_undisturbed_unbounded_send<T>(
    s: &mut UnboundedSender<T>,
    item: T,
    sent: Result<(), SendError<T>>,
    closed: bool,
)
    requires
        call_ensures(UnboundedSender::<T>::start_send, (s, item), sent) || call_ensures(
            UnboundedSender::<T>::send,
            (&*old(s), item),
            sent,
        ),
        forall|seen: bool|
            #[trigger] call_ensures(TokioUnboundedSender::<T>::is_closed, (&old(s).0,), seen) ==> seen
                == closed,
    ensures
        match sent {
            Ok(_) => !closed,
            Err(e) => closed && e.0 == item,
        },
{
}

/// On a channel for one value whose receiver is gone all the while, or there all the while, the
/// value is taken exactly when the sender has not been used and the receiver is there. Otherwise it
/// comes back.
pub proof fn law_undisturbed_once_send<T>(
    s: &mut OnceSender<T>,
    item: T,
    sent: Result<(), T>,
    closed: bool,
)
    requires
        call_ensures(OnceSender::<T>::start_send, (s, item), sent) || call_ensures(
            OnceSender::<T>::send,
            (*old(s), item),
            sent,
        ),
        forall|seen: bool| #[trigger] seen_closed(old(s).0, seen) ==> seen == closed,
    ensures
        match sent {
            Ok(_) => !closed && old(s).0 is Some,
            Err(back) => closed && back == item,
        },
{
}

/// A poll for readiness tells of a closed channel only where `is_closed` gave true, and waits, or
/// tells of a full channel, only where `is_closed` gave false and no place was free.
pub proof fn law_readiness_is_seen<T: Send + 'static>(
    s: &mut Sender<T>,
    cx: &mut Context<'_>,
    r: Poll<Result<(), TrySendError<()>>>,
)
    requires
        call_ensures(Sender::<T>::poll_ready, (s, cx), r),
    ensures
        match r {
            Poll::Ready(Err(TrySendError::Closed(_))) => call_ensures(
                TokioSender::<T>::is_closed,
                (&old(s).handle(),),
                true,
            ),
            Poll::Ready(Ok(_)) => call_ensures(TokioSender::<T>::is_closed, (&old(s).handle(),), false),
            Poll::Ready(Err(TrySendError::Full(_))) | Poll::Pending => call_ensures(
                TokioSender::<T>::is_closed,
                (&old(s).handle(),),
                false,
            ) && call_ensures(TokioSender::<T>::capacity, (&old(s).handle(),), 0),
        },
{
}

/// On a channel for one value whose receiver is gone all the while, or there all the while, a
/// poll for its end is ready only when `is_closed` gives true, and is ready wherever the sender has
/// been used. The sender stays as it is.
pub proof fn law_poll_closed<T>(
    s: &mut OnceSender<T>,
    cx: &mut Context<'_>,
    r: Poll<()>,
    closed: bool,
)
    requires
        call_ensures(OnceSender::<T>::poll_closed, (s, cx), r),
        forall|seen: bool| #[trigger] seen_closed(old(s).0, seen) ==> seen == closed,
    ensures
        r is Ready ==> closed,
        old(s).0 is None ==> r is Ready,
        *final(s) == *old(s),
{
}

/// A sender for one value is used up by `start_send`, whatever came of it, and by `poll_close`.
/// From then on it gives every value back and tells that its channel is closed.
pub proof fn law_used_up<T>(
    s: &mut OnceSender<T>,
    item: T,
    started: Result<(), T>,
    cx: &mut Context<'_>,
    closed: Poll<Result<(), T>>,
    used: OnceSender<T>,
)
    requires
        call_ensures(OnceSender::<T>::start_send, (s, item), started) || call_ensures(
            OnceSender::<T>::poll_close,
            (s, cx),
            closed,
        ),
        used == *final(s),
    ensures
        forall|t: T, r: Result<(), T>|
            #[trigger] call_ensures(OnceSender::<T>::send, (used, t), r) ==> r == Err::<(), T>(t),
        forall|u: &mut OnceSender<T>, t: T, r: Result<(), T>|
            *u == used && #[trigger] call_ensures(OnceSender::<T>::start_send, (u, t), r) ==> r
                == Err::<(), T>(t),
        forall|r: bool| call_ensures(OnceSender::<T>::is_closed, (&used,), r) ==> r,
        forall|u: &mut OnceSender<T>, c: &mut Context<'_>, r: Poll<()>|
            *u == used && #[trigger] call_ensures(OnceSender::<T>::poll_closed, (u, c), r) ==> r
                == Poll::Ready(()),
        forall|r: Option<TokioOnceSender<T>>|
            call_ensures(OnceSender::<T>::into_inner, (used,), r) ==> r is None,
{
}

} // verus!
