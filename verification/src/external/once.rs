//! The channel of tokio for a single value, `tokio::sync::oneshot`.

use crate::effects::{makes_channel, puts_item, waits};
use core::task::{Context, Poll};
use tokio::sync::oneshot::channel as tokio_once_channel;
use tokio::sync::oneshot::Receiver as TokioOnceReceiver;
use tokio::sync::oneshot::Sender as TokioOnceSender;
use tokio::sync::oneshot::error::RecvError;
use vstd::prelude::*;

verus! {

/// `tokio::sync::oneshot::Sender`, opaque: the handle that sends the one value.
#[verifier::external_type_specification]
#[verifier::external_body]
#[verifier::reject_recursive_types(T)]
pub struct ExOnceSender<T>(TokioOnceSender<T>);

/// `tokio::sync::oneshot::Receiver`, opaque.
#[verifier::external_type_specification]
#[verifier::external_body]
#[verifier::reject_recursive_types(T)]
pub struct ExOnceReceiver<T>(TokioOnceReceiver<T>);

/// `tokio::sync::oneshot::error::RecvError`, opaque: what a receiver resolves to when the sender is
/// gone without a value.
#[verifier::external_type_specification]
#[verifier::external_body]
pub struct ExRecvError(RecvError);

/// `oneshot::channel` makes a channel for one value, whose receiver is there.
pub assume_specification<T>[ tokio_once_channel::<T> ]() -> (r: (
    TokioOnceSender<T>,
    TokioOnceReceiver<T>,
))
    ensures
        call_ensures(TokioOnceSender::<T>::is_closed, (&r.0,), false),
    opens_invariants [ makes_channel() ]
;

/// `oneshot::Sender::send` hands the value over. If the receiver is gone, so that `is_closed` would
/// have given true, the value comes back. That the value is received is not said.
pub assume_specification<T>[ TokioOnceSender::<T>::send ](s: TokioOnceSender<T>, t: T) -> (r: Result<
    (),
    T,
>)
    ensures
        r matches Err(back) ==> back == t,
        call_ensures(TokioOnceSender::<T>::is_closed, (&s,), r is Err),
    opens_invariants [ puts_item() ]
;

/// `oneshot::Sender::is_closed` tells whether the receiver is gone. That is up to the receiver.
pub assume_specification<T>[ TokioOnceSender::<T>::is_closed ](s: &TokioOnceSender<T>) -> (r: bool)
    opens_invariants none
;

/// `oneshot::Sender::poll_closed` is ready once the receiver is gone: `is_closed` then gives true.
/// The handle stays the same.
pub assume_specification<T>[ TokioOnceSender::<T>::poll_closed ](
    s: &mut TokioOnceSender<T>,
    cx: &mut Context<'_>,
) -> (r: Poll<()>)
    ensures
        *final(s) == *old(s),
        r is Ready ==> call_ensures(TokioOnceSender::<T>::is_closed, (&*final(s),), true),
    opens_invariants [ waits() ]
;

} // verus!
