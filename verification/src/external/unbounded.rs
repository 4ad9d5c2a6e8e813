//! The unbounded channel of tokio, `tokio::sync::mpsc`, and its stream in tokio-stream.

use crate::effects::{adds_weak_handle, makes_channel, puts_item, waits};
use core::future::Future;
use tokio::sync::mpsc::unbounded_channel as tokio_unbounded_channel;
use tokio::sync::mpsc::UnboundedSender as TokioUnboundedSender;
use tokio::sync::mpsc::error::SendError;
use tokio::sync::mpsc::{UnboundedReceiver, WeakUnboundedSender};
use tokio_stream::wrappers::UnboundedReceiverStream;
use vstd::future::FutureAdditionalSpecFns;
use vstd::prelude::*;

verus! {

/// `tokio::sync::mpsc::UnboundedSender`, opaque: a handle of an unbounded channel.
#[verifier::external_type_specification]
#[verifier::external_body]
#[verifier::reject_recursive_types(T)]
pub struct ExUnboundedSender<T>(TokioUnboundedSender<T>);

/// `tokio::sync::mpsc::WeakUnboundedSender`, opaque.
#[verifier::external_type_specification]
#[verifier::external_body]
#[verifier::reject_recursive_types(T)]
pub struct ExWeakUnboundedSender<T>(WeakUnboundedSender<T>);

/// `tokio::sync::mpsc::UnboundedReceiver`, opaque.
#[verifier::external_type_specification]
#[verifier::external_body]
#[verifier::reject_recursive_types(T)]
pub struct ExUnboundedReceiver<T>(UnboundedReceiver<T>);

/// `tokio_stream::wrappers::UnboundedReceiverStream`, opaque.
#[verifier::external_type_specification]
#[verifier::external_body]
#[verifier::reject_recursive_types(T)]
pub struct ExUnboundedReceiverStream<T>(UnboundedReceiverStream<T>);

/// `mpsc::unbounded_channel` makes an unbounded channel, which is open and has one sending
/// handle and no weak one.
pub assume_specification<T>[ tokio_unbounded_channel::<T> ]() -> (r: (
    TokioUnboundedSender<T>,
    UnboundedReceiver<T>,
))
    ensures
        call_ensures(TokioUnboundedSender::<T>::is_closed, (&r.0,), false),
        call_ensures(TokioUnboundedSender::<T>::strong_count, (&r.0,), 1),
        call_ensures(TokioUnboundedSender::<T>::weak_count, (&r.0,), 0),
    opens_invariants [ makes_channel() ]
;

/// `UnboundedSender::clone` gives one more handle of the same channel: `strong_count` gives a
/// number, and would have given one less before.
pub assume_specification<T>[ <TokioUnboundedSender<T> as Clone>::clone ](
    s: &TokioUnboundedSender<T>,
) -> (r: TokioUnboundedSender<T>)
    ensures
        r == *s,
        exists|n: usize|
            #[trigger] call_ensures(TokioUnboundedSender::<T>::strong_count, (&r,), n) && call_ensures(
                TokioUnboundedSender::<T>::strong_count,
                (&r,),
                (n - 1) as usize,
            ),
;

/// `UnboundedSender::same_channel` compares the pointers to the two channels.
pub assume_specification<T>[ TokioUnboundedSender::<T>::same_channel ](
    s: &TokioUnboundedSender<T>,
    other: &TokioUnboundedSender<T>,
) -> (r: bool)
    ensures
        r == (*s == *other),
    opens_invariants none
;

/// `UnboundedSender::is_closed` tells whether the receiving half is gone or has closed the
/// channel. That is up to the receiving half.
pub assume_specification<T>[ TokioUnboundedSender::<T>::is_closed ](
    s: &TokioUnboundedSender<T>,
) -> (r: bool)
    opens_invariants none
;

/// `UnboundedSender::strong_count` counts the sending handles of the channel, the one it is
/// called on among them.
pub assume_specification<T>[ TokioUnboundedSender::<T>::strong_count ](
    s: &TokioUnboundedSender<T>,
) -> (n: usize)
    ensures
        n >= 1,
    opens_invariants none
;

/// `UnboundedSender::weak_count` counts the weak handles of the channel.
pub assume_specification<T>[ TokioUnboundedSender::<T>::weak_count ](
    s: &TokioUnboundedSender<T>,
) -> (n: usize)
    opens_invariants none
;

/// `UnboundedSender::downgrade` gives a weak handle of the channel. Nothing more is claimed of it.
pub assume_specification<T>[ TokioUnboundedSender::<T>::downgrade ](
    s: &TokioUnboundedSender<T>,
) -> (r: WeakUnboundedSender<T>)
    opens_invariants [ adds_weak_handle() ]
;

/// `UnboundedSender::send` puts the message into the channel, which is open. If the channel is
/// closed, so that `is_closed` gives true, the message comes back. That the message is received, and
/// in which order, is not said.
pub assume_specification<T>[ TokioUnboundedSender::<T>::send ](
    s: &TokioUnboundedSender<T>,
    message: T,
) -> (r: Result<(), SendError<T>>)
    ensures
        r matches Err(e) ==> e.0 == message,
        call_ensures(TokioUnboundedSender::<T>::is_closed, (s,), r is Err),
    opens_invariants [ puts_item() ]
;

/// `UnboundedReceiverStream::new` makes a stream of a receiver. Nothing more is claimed of it.
pub assume_specification<T>[ UnboundedReceiverStream::<T>::new ](recv: UnboundedReceiver<T>) -> (r:
    UnboundedReceiverStream<T>)
    opens_invariants none
;

/// `UnboundedSender::closed` is done once the channel is closed: `is_closed` then gives true.
pub assume_specification<T>[ TokioUnboundedSender::<T>::closed ](s: &TokioUnboundedSender<T>) -> (r:
    impl Future<Output = ()> + use<'_, T>)
    ensures
        r.awaited() ==> call_ensures(TokioUnboundedSender::<T>::is_closed, (s,), true),
    opens_invariants [ waits() ]
;

} // verus!
