//! The bounded channel of tokio, `tokio::sync::mpsc`, and its stream in tokio-stream.

use crate::effects::{
    adds_weak_handle, makes_channel, puts_item, reserves_places, takes_place, takes_places, waits,
};
use core::future::Future;
use core::time::Duration;
use tokio::sync::mpsc::channel as tokio_channel;
use tokio::sync::mpsc::Receiver as TokioReceiver;
use tokio::sync::mpsc::Sender as TokioSender;
use tokio::sync::mpsc::{OwnedPermit, Permit, PermitIterator, WeakSender};
use tokio::sync::mpsc::error::{SendError, SendTimeoutError, TrySendError};
use tokio_stream::wrappers::ReceiverStream;
use vstd::future::FutureAdditionalSpecFns;
use vstd::prelude::*;

verus! {

/// `tokio::sync::mpsc::Sender`, opaque: a handle of a bounded channel.
#[verifier::external_type_specification]
#[verifier::external_body]
#[verifier::reject_recursive_types(T)]
pub struct ExSender<T>(TokioSender<T>);

/// `tokio::sync::mpsc::WeakSender`, opaque.
#[verifier::external_type_specification]
#[verifier::external_body]
#[verifier::reject_recursive_types(T)]
pub struct ExWeakSender<T>(WeakSender<T>);

/// `tokio::sync::mpsc::Permit`, opaque.
#[verifier::external_type_specification]
#[verifier::external_body]
#[verifier::reject_recursive_types(T)]
pub struct ExPermit<'a, T>(Permit<'a, T>);

/// `tokio::sync::mpsc::PermitIterator`, opaque.
#[verifier::external_type_specification]
#[verifier::external_body]
#[verifier::reject_recursive_types(T)]
pub struct ExPermitIterator<'a, T>(PermitIterator<'a, T>);

/// `tokio::sync::mpsc::OwnedPermit`, opaque.
#[verifier::external_type_specification]
#[verifier::external_body]
#[verifier::reject_recursive_types(T)]
pub struct ExOwnedPermit<T>(OwnedPermit<T>);

/// `tokio::sync::mpsc::Receiver`, opaque.
#[verifier::external_type_specification]
#[verifier::external_body]
#[verifier::reject_recursive_types(T)]
pub struct ExReceiver<T>(TokioReceiver<T>);

/// `tokio_stream::wrappers::ReceiverStream`, opaque.
#[verifier::external_type_specification]
#[verifier::external_body]
#[verifier::reject_recursive_types(T)]
pub struct ExReceiverStream<T>(ReceiverStream<T>);

/// `tokio::sync::mpsc::error::SendError`, with its field.
#[verifier::external_type_specification]
pub struct ExSendError<T>(SendError<T>);

/// `tokio::sync::mpsc::error::TrySendError`, with its two variants.
#[verifier::external_type_specification]
pub struct ExTrySendError<T>(TrySendError<T>);

/// `tokio::sync::mpsc::error::SendTimeoutError`, with its two variants.
#[verifier::external_type_specification]
pub struct ExSendTimeoutError<T>(SendTimeoutError<T>);

/// `Sender::max_capacity` reads the bound that the channel was made with. What that bound is, is
/// said where a channel is made.
pub assume_specification<T>[ TokioSender::<T>::max_capacity ](s: &TokioSender<T>) -> (n: usize)
    opens_invariants none
;

/// `mpsc::channel` makes a bounded channel. It panics on a bound of zero and on one above
/// `Semaphore::MAX_PERMITS`, an eighth of the largest `usize`. From then on `max_capacity` gives
/// the bound, on any handle of the channel and at any time. The new channel is open, all its places
/// are free, and it has one sending handle and no weak one.
pub assume_specification<T>[ tokio_channel::<T> ](buffer: usize) -> (r: (
    TokioSender<T>,
    TokioReceiver<T>,
))
    requires
        0 < buffer <= usize::MAX / 8,
    ensures
        forall|n: usize|
            #[trigger] call_ensures(TokioSender::<T>::max_capacity, (&r.0,), n) ==> n == buffer,
        call_ensures(TokioSender::<T>::max_capacity, (&r.0,), buffer),
        call_ensures(TokioSender::<T>::is_closed, (&r.0,), false),
        call_ensures(TokioSender::<T>::capacity, (&r.0,), buffer),
        call_ensures(TokioSender::<T>::strong_count, (&r.0,), 1),
        call_ensures(TokioSender::<T>::weak_count, (&r.0,), 0),
    opens_invariants [ makes_channel() ]
;

/// `Sender::clone` gives one more handle of the same channel: `strong_count` gives a number, and
/// would have given one less before.
pub assume_specification<T>[ <TokioSender<T> as Clone>::clone ](s: &TokioSender<T>) -> (r:
    TokioSender<T>)
    ensures
        r == *s,
        exists|n: usize|
            #[trigger] call_ensures(TokioSender::<T>::strong_count, (&r,), n) && call_ensures(
                TokioSender::<T>::strong_count,
                (&r,),
                (n - 1) as usize,
            ),
;

/// `Sender::same_channel` compares the pointers to the two channels.
pub assume_specification<T>[ TokioSender::<T>::same_channel ](
    s: &TokioSender<T>,
    other: &TokioSender<T>,
) -> (r: bool)
    ensures
        r == (*s == *other),
    opens_invariants none
;

/// `Sender::is_closed` tells whether the receiving half is gone or has closed the channel. That
/// is up to the receiving half.
pub assume_specification<T>[ TokioSender::<T>::is_closed ](s: &TokioSender<T>) -> (r: bool)
    opens_invariants none
;

/// `Sender::capacity` counts the free places of the channel at this moment. There are never more
/// of them than the channel was made with.
pub assume_specification<T>[ TokioSender::<T>::capacity ](s: &TokioSender<T>) -> (n: usize)
    ensures
        forall|max: usize|
            #[trigger] call_ensures(TokioSender::<T>::max_capacity, (s,), max) ==> n <= max,
    opens_invariants none
;

/// `Sender::strong_count` counts the sending handles of the channel, the one it is called on
/// among them.
pub assume_specification<T>[ TokioSender::<T>::strong_count ](s: &TokioSender<T>) -> (n: usize)
    ensures
        n >= 1,
    opens_invariants none
;

/// `Sender::weak_count` counts the weak handles of the channel.
pub assume_specification<T>[ TokioSender::<T>::weak_count ](s: &TokioSender<T>) -> (n: usize)
    opens_invariants none
;

/// `Sender::downgrade` gives a weak handle of the channel. Nothing more is claimed of it.
pub assume_specification<T>[ TokioSender::<T>::downgrade ](s: &TokioSender<T>) -> (r: WeakSender<T>)
    opens_invariants [ adds_weak_handle() ]
;

/// `Sender::try_send` puts the message into the channel if it is open and there is a free place.
/// Otherwise the message comes back. The outcome is what `is_closed` and `capacity` would have told
/// at that moment. That the message is received, and in which order, is not said.
pub assume_specification<T>[ TokioSender::<T>::try_send ](s: &TokioSender<T>, message: T) -> (r:
    Result<(), TrySendError<T>>)
    ensures
        match r {
            Ok(_) => call_ensures(TokioSender::<T>::is_closed, (s,), false) && exists|free: usize|
                free > 0 && #[trigger] call_ensures(TokioSender::<T>::capacity, (s,), free),
            Err(TrySendError::Full(m)) => m == message && call_ensures(
                TokioSender::<T>::is_closed,
                (s,),
                false,
            ) && call_ensures(TokioSender::<T>::capacity, (s,), 0),
            Err(TrySendError::Closed(m)) => m == message && call_ensures(
                TokioSender::<T>::is_closed,
                (s,),
                true,
            ),
        },
    opens_invariants [ puts_item() ]
;

/// `Sender::try_reserve` takes one free place if the channel is open and there is one. The
/// outcome is what `is_closed` and `capacity` would have told at that moment.
pub assume_specification<'a, T>[ TokioSender::<T>::try_reserve ](s: &'a TokioSender<T>) -> (r:
    Result<Permit<'a, T>, TrySendError<()>>)
    ensures
        match r {
            Ok(_) => call_ensures(TokioSender::<T>::is_closed, (s,), false) && exists|free: usize|
                free >= 1 && #[trigger] call_ensures(TokioSender::<T>::capacity, (s,), free),
            Err(TrySendError::Full(_)) => call_ensures(TokioSender::<T>::is_closed, (s,), false)
                && call_ensures(TokioSender::<T>::capacity, (s,), 0),
            Err(TrySendError::Closed(_)) => call_ensures(TokioSender::<T>::is_closed, (s,), true),
        },
    opens_invariants [ takes_place() ]
;

/// `Sender::try_reserve_many` takes `n` free places if the channel is open and there are as many.
/// More than the bound of the channel are refused as a full channel. Any other outcome is what
/// `is_closed` and `capacity` would have told at that moment.
pub assume_specification<'a, T>[ TokioSender::<T>::try_reserve_many ](
    s: &'a TokioSender<T>,
    n: usize,
) -> (r: Result<PermitIterator<'a, T>, TrySendError<()>>)
    ensures
        r matches Err(TrySendError::Full(_)) || (forall|max: usize|
            #[trigger] call_ensures(TokioSender::<T>::max_capacity, (s,), max) ==> n <= max),
        match r {
            Ok(_) => call_ensures(TokioSender::<T>::is_closed, (s,), false) && exists|free: usize|
                free >= n && #[trigger] call_ensures(TokioSender::<T>::capacity, (s,), free),
            Err(TrySendError::Full(_)) => forall|max: usize|
                #[trigger] call_ensures(TokioSender::<T>::max_capacity, (s,), max) && n <= max
                    ==> call_ensures(TokioSender::<T>::is_closed, (s,), false) && exists|free: usize|
                    free < n && #[trigger] call_ensures(TokioSender::<T>::capacity, (s,), free),
            Err(TrySendError::Closed(_)) => call_ensures(TokioSender::<T>::is_closed, (s,), true),
        },
    opens_invariants [ takes_places() ]
;

/// `Sender::try_reserve_owned` takes one free place if the channel is open and there is one.
/// Otherwise the handle comes back. The outcome is what `is_closed` and `capacity` would have told at
/// that moment.
pub assume_specification<T>[ TokioSender::<T>::try_reserve_owned ](s: TokioSender<T>) -> (r: Result<
    OwnedPermit<T>,
    TrySendError<TokioSender<T>>,
>)
    ensures
        match r {
            Ok(_) => call_ensures(TokioSender::<T>::is_closed, (&s,), false) && exists|free: usize|
                free >= 1 && #[trigger] call_ensures(TokioSender::<T>::capacity, (&s,), free),
            Err(TrySendError::Full(back)) => back == s && call_ensures(
                TokioSender::<T>::is_closed,
                (&s,),
                false,
            ) && call_ensures(TokioSender::<T>::capacity, (&s,), 0),
            Err(TrySendError::Closed(back)) => back == s && call_ensures(
                TokioSender::<T>::is_closed,
                (&s,),
                true,
            ),
        },
    opens_invariants [ takes_place() ]
;

/// `ReceiverStream::new` makes a stream of a receiver. Nothing more is claimed of it.
pub assume_specification<T>[ ReceiverStream::<T>::new ](recv: TokioReceiver<T>) -> (r: ReceiverStream<T>)
    opens_invariants none
;

/// `Sender::closed` is done once the channel is closed: `is_closed` then gives true.
pub assume_specification<T>[ TokioSender::<T>::closed ](s: &TokioSender<T>) -> (r: impl Future<
    Output = (),
> + use<'_, T>)
    ensures
        r.awaited() ==> call_ensures(TokioSender::<T>::is_closed, (s,), true),
    opens_invariants [ waits() ]
;

/// `Sender::send` waits for a free place and puts the value there, while the channel is open. If
/// it is closed, so that `is_closed` gives true, the value comes back. That the value is received,
/// and in which order, is not said.
pub assume_specification<T>[ TokioSender::<T>::send ](s: &TokioSender<T>, value: T) -> (r:
    impl Future<Output = Result<(), SendError<T>>> + use<'_, T>)
    ensures
        r.awaited() ==> (r@ matches Err(e) ==> e.0 == value),
        r.awaited() ==> call_ensures(TokioSender::<T>::is_closed, (s,), r@ is Err),
    opens_invariants [ puts_item() ]
;

/// `Sender::send_timeout` does as `send`, but gives up after a while, and then hands the value
/// back. When it gives up depends on the clock, and is not said. Awaiting it panics where no tokio
/// runtime with a timer runs.
pub assume_specification<T>[ TokioSender::<T>::send_timeout ](
    s: &TokioSender<T>,
    value: T,
    timeout: Duration,
) -> (r: impl Future<Output = Result<(), SendTimeoutError<T>>> + use<'_, T>)
    ensures
        r.awaited() ==> match r@ {
            Ok(_) => call_ensures(TokioSender::<T>::is_closed, (s,), false),
            Err(SendTimeoutError::Closed(back)) => back == value && call_ensures(
                TokioSender::<T>::is_closed,
                (s,),
                true,
            ),
            Err(SendTimeoutError::Timeout(back)) => back == value,
        },
    opens_invariants [ puts_item() ]
;

/// `Sender::reserve` waits for a free place and takes it, while the channel is open. It fails where
/// the channel is closed, so that `is_closed` gives true. A place may be handed over without ever
/// being counted by `capacity`, so nothing is said of that count.
pub assume_specification<'a, T>[ TokioSender::<T>::reserve ](s: &'a TokioSender<T>) -> (r:
    impl Future<Output = Result<Permit<'a, T>, SendError<()>>> + use<'a, T>)
    ensures
        r.awaited() ==> call_ensures(TokioSender::<T>::is_closed, (s,), r@ is Err),
    opens_invariants [ reserves_places() ]
;

/// `Sender::reserve_many` waits for `n` free places and takes them, while the channel is open. It
/// fails where `n` is above the bound of the channel, and where the channel is closed, so that
/// `is_closed` gives true. As with `reserve`, nothing is said of the count of free places.
pub assume_specification<'a, T>[ TokioSender::<T>::reserve_many ](
    s: &'a TokioSender<T>,
    n: usize,
) -> (r: impl Future<Output = Result<PermitIterator<'a, T>, SendError<()>>> + use<'a, T>)
    ensures
        r.awaited() && r@ is Ok ==> (forall|max: usize|
            #[trigger] call_ensures(TokioSender::<T>::max_capacity, (s,), max) ==> n <= max),
        r.awaited() ==> match r@ {
            Ok(_) => call_ensures(TokioSender::<T>::is_closed, (s,), false),
            Err(_) => forall|max: usize|
                #[trigger] call_ensures(TokioSender::<T>::max_capacity, (s,), max) && n <= max
                    ==> call_ensures(TokioSender::<T>::is_closed, (s,), true),
        },
    opens_invariants [ reserves_places() ]
;

/// `Sender::reserve_owned` waits for a free place and takes it, while the channel is open. It fails
/// where the channel is closed, so that `is_closed` gives true. As with `reserve`, nothing is said of
/// the count of free places.
pub assume_specification<T>[ TokioSender::<T>::reserve_owned ](s: TokioSender<T>) -> (r: impl Future<
    Output = Result<OwnedPermit<T>, SendError<()>>,
>)
    ensures
        r.awaited() ==> call_ensures(TokioSender::<T>::is_closed, (&s,), r@ is Err),
    opens_invariants [ reserves_places() ]
;

} // verus!
