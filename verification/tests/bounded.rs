use core::future::Future;
use core::task::{Context, Poll};
use core::time::Duration;
use futures_test::task::{noop_context, panic_context};
use smpsc::mpsc::{self, Sender, SendError, SendTimeoutError, TrySendError};
use smpsc::readiness::{check_at_once, settle_wait, wakes};
use std::sync::atomic::{AtomicUsize, Ordering};
use std::sync::Arc;
use std::task::{Wake, Waker};
use tokio_stream::StreamExt;

fn block_on<F: Future>(f: F) -> F::Output {
    tokio::runtime::Builder::new_current_thread()
        .enable_time()
        .build()
        .unwrap()
        .block_on(f)
}

struct Count(AtomicUsize);

impl Count {
    fn get(&self) -> usize {
        self.0.load(Ordering::SeqCst)
    }
}

impl Wake for Count {
    fn wake(self: Arc<Self>) {
        self.0.fetch_add(1, Ordering::SeqCst);
    }
}

fn is_send<T: Send>(_: &T) {}

fn is_sync<T: Sync>(_: &T) {}

#[test]
fn wrapping_gives_the_handle_back() {
    let (tx, _rx) = tokio::sync::mpsc::channel::<u8>(3);
    let kept = tx.clone();
    let by_new = Sender::new(tx);
    assert!(by_new.as_ref().same_channel(&kept));
    assert!(by_new.into_inner().same_channel(&kept));
    let by_from = Sender::from(kept.clone());
    assert!(by_from.into_inner().same_channel(&kept));
}

#[test]
fn as_mut_replaces_the_handle() {
    let (mut tx, _rx) = mpsc::channel::<u8>(1);
    let (other, mut other_rx) = tokio::sync::mpsc::channel::<u8>(7);
    *tx.as_mut() = other;
    assert_eq!(tx.max_capacity(), 7);
    tx.try_send(4).unwrap();
    assert_eq!(other_rx.try_recv(), Ok(4));
}

#[test]
fn same_channel_is_shared_by_clones_only() {
    let (tx, _rx) = mpsc::channel::<u8>(1);
    let (other, _other_rx) = mpsc::channel::<u8>(1);
    let clone = tx.clone();
    assert!(tx.same_channel(&tx));
    assert!(tx.same_channel(&clone));
    assert!(clone.same_channel(&tx));
    assert!(!tx.same_channel(&other));
    assert!(!other.same_channel(&clone));
}

#[test]
fn bound_is_told_and_kept() {
    let (tx, mut rx) = smpsc::channel::<u8>(3);
    let clone = tx.clone();
    assert_eq!(tx.max_capacity(), 3);
    assert_eq!(clone.max_capacity(), 3);
    assert_eq!(tx.capacity(), 3);
    tx.try_send(1).unwrap();
    assert_eq!(clone.capacity(), 2);
    assert!(matches!(clone.try_reserve_many(4), Err(TrySendError::Full(()))));
    assert!(matches!(clone.try_reserve_many(3), Err(TrySendError::Full(()))));
    let mut permits = clone.try_reserve_many(2).unwrap();
    assert_eq!(tx.capacity(), 0);
    permits.next().unwrap().send(2);
    permits.next().unwrap().send(3);
    assert!(permits.next().is_none());
    assert_eq!(tx.max_capacity(), 3);
    drop(permits);
    drop(tx);
    drop(clone);
    assert_eq!(block_on(async { rx.next().await }), Some(1));
    assert_eq!(block_on(async { rx.next().await }), Some(2));
    assert_eq!(block_on(async { rx.next().await }), Some(3));
    assert_eq!(block_on(async { rx.next().await }), None);
}

#[test]
fn one_place_is_the_least_bound() {
    let (tx, _rx) = mpsc::channel::<u8>(1);
    assert_eq!(tx.max_capacity(), 1);
}

#[test]
fn handles_are_counted() {
    let (tx, _rx) = mpsc::channel::<u8>(1);
    assert_eq!(tx.strong_count(), 1);
    assert_eq!(tx.weak_count(), 0);
    let clone = tx.clone();
    let weak = tx.downgrade();
    assert_eq!(clone.strong_count(), 2);
    assert_eq!(clone.weak_count(), 1);
    assert!(weak.upgrade().unwrap().same_channel(tx.as_ref()));
    drop(clone);
    assert_eq!(tx.strong_count(), 1);
}

#[test]
fn try_send_gives_the_message_back() {
    let (tx, rx) = mpsc::channel::<u8>(1);
    assert_eq!(tx.try_send(1), Ok(()));
    assert_eq!(tx.try_send(2), Err(TrySendError::Full(2)));
    assert!(!tx.is_closed());
    drop(rx);
    assert!(tx.is_closed());
    assert_eq!(tx.try_send(3), Err(TrySendError::Closed(3)));
}

#[test]
fn send_gives_the_value_back() {
    let (tx, mut rx) = mpsc::channel::<u8>(1);
    assert_eq!(block_on(tx.send(1)), Ok(()));
    assert_eq!(block_on(async { rx.next().await }), Some(1));
    drop(rx);
    assert_eq!(block_on(tx.send(2)), Err(SendError(2)));
}

#[test]
fn send_timeout_gives_the_value_back() {
    let (tx, rx) = mpsc::channel::<u8>(1);
    let soon = Duration::from_millis(5);
    assert_eq!(block_on(async { tx.send_timeout(1, soon).await }), Ok(()));
    assert_eq!(
        block_on(async { tx.send_timeout(2, soon).await }),
        Err(SendTimeoutError::Timeout(2))
    );
    drop(rx);
    assert_eq!(
        block_on(async { tx.send_timeout(3, soon).await }),
        Err(SendTimeoutError::Closed(3))
    );
}

#[test]
fn closed_is_done_when_the_receiver_is_gone() {
    let (tx, rx) = mpsc::channel::<u8>(1);
    {
        let mut closed = Box::pin(tx.closed());
        assert!(closed.as_mut().poll(&mut noop_context()).is_pending());
    }
    drop(rx);
    block_on(tx.closed());
    assert!(tx.is_closed());
}

#[test]
fn reserve_takes_a_place() {
    let (tx, mut rx) = mpsc::channel::<u8>(1);
    let permit = block_on(tx.reserve()).unwrap();
    assert_eq!(tx.capacity(), 0);
    assert!(matches!(tx.try_reserve(), Err(TrySendError::Full(()))));
    permit.send(5);
    assert_eq!(block_on(async { rx.next().await }), Some(5));
    let permit = tx.try_reserve().unwrap();
    assert_eq!(tx.capacity(), 0);
    drop(permit);
    assert_eq!(tx.capacity(), 1);
    drop(rx);
    assert!(matches!(block_on(tx.reserve()), Err(SendError(()))));
    assert!(matches!(tx.try_reserve(), Err(TrySendError::Closed(()))));
}

#[test]
fn reserve_many_takes_places_up_to_the_bound() {
    let (tx, rx) = mpsc::channel::<u8>(2);
    assert!(matches!(block_on(tx.reserve_many(3)), Err(SendError(()))));
    let permits = block_on(tx.reserve_many(2)).unwrap();
    assert_eq!(tx.capacity(), 0);
    drop(permits);
    assert_eq!(tx.capacity(), 2);
    assert!(tx.try_reserve_many(0).is_ok());
    drop(rx);
    assert!(matches!(block_on(tx.reserve_many(1)), Err(SendError(()))));
    assert!(matches!(tx.try_reserve_many(1), Err(TrySendError::Closed(()))));
}

#[test]
fn reserve_owned_gives_up_the_sender() {
    let (tx, mut rx) = mpsc::channel::<u8>(1);
    let permit = block_on(tx.clone().reserve_owned()).unwrap();
    assert_eq!(tx.capacity(), 0);
    permit.send(9);
    assert_eq!(block_on(async { rx.next().await }), Some(9));
    drop(rx);
    assert!(matches!(block_on(tx.reserve_owned()), Err(SendError(()))));
}

#[test]
fn try_reserve_owned_gives_the_sender_back() {
    let (tx, rx) = mpsc::channel::<u8>(1);
    let kept = tx.clone();
    let permit = tx.clone().try_reserve_owned().unwrap();
    let tx = match tx.try_reserve_owned() {
        Err(TrySendError::Full(tx)) => tx,
        _ => panic!("a full channel gave a place"),
    };
    assert!(tx.same_channel(&kept));
    drop(permit);
    drop(rx);
    match tx.try_reserve_owned() {
        Err(TrySendError::Closed(tx)) => assert!(tx.same_channel(&kept)),
        _ => panic!("a closed channel gave a place"),
    }
}

#[test]
fn rewrap_keeps_what_an_attempt_says() {
    let (tx, _rx) = tokio::sync::mpsc::channel::<u8>(4);
    match Sender::rewrap(Err(TrySendError::Full(tx.clone()))) {
        Err(TrySendError::Full(s)) => assert!(s.as_ref().same_channel(&tx)),
        _ => panic!("not full"),
    }
    match Sender::rewrap(Err(TrySendError::Closed(tx.clone()))) {
        Err(TrySendError::Closed(s)) => assert!(s.as_ref().same_channel(&tx)),
        _ => panic!("not closed"),
    }
    assert!(Sender::rewrap(tx.try_reserve_owned()).is_ok());
}

#[test]
fn start_send_tells_why_it_failed() {
    let (mut tx, rx) = mpsc::channel::<u8>(1);
    assert_eq!(tx.start_send(1), Ok(()));
    assert_eq!(tx.start_send(2), Err(TrySendError::Full(())));
    drop(rx);
    assert_eq!(tx.start_send(3), Err(TrySendError::Closed(())));
}

#[test]
fn drop_item_keeps_the_kind_of_failure() {
    assert_eq!(mpsc::drop_item::<u8>(Ok(())), Ok(()));
    assert_eq!(
        mpsc::drop_item(Err(TrySendError::Full(1u8))),
        Err(TrySendError::Full(()))
    );
    assert_eq!(
        mpsc::drop_item(Err(TrySendError::Closed(1u8))),
        Err(TrySendError::Closed(()))
    );
}

#[test]
fn readiness_without_waiting() {
    assert_eq!(check_at_once(true, 0), Some(Err(TrySendError::Closed(()))));
    assert_eq!(check_at_once(true, 5), Some(Err(TrySendError::Closed(()))));
    assert_eq!(check_at_once(false, 1), Some(Ok(())));
    assert_eq!(check_at_once(false, 0), None);
}

#[test]
fn readiness_after_a_wait() {
    assert_eq!(settle_wait(Poll::Ready(Ok(7u8))), Poll::Ready(Ok(())));
    assert_eq!(
        settle_wait::<u8>(Poll::Ready(Err(SendError(())))),
        Poll::Ready(Err(TrySendError::Full(())))
    );
    assert_eq!(settle_wait::<u8>(Poll::Pending), Poll::Pending);
}

#[test]
fn only_readiness_wakes() {
    assert!(wakes(&Poll::Ready(Ok(()))));
    assert!(!wakes(&Poll::Pending));
    assert!(!wakes(&Poll::Ready(Err(TrySendError::Full(())))));
    assert!(!wakes(&Poll::Ready(Err(TrySendError::Closed(())))));
}

#[test]
fn latest_waker_is_woken() {
    let (mut tx, mut rx) = mpsc::channel::<u8>(1);
    tx.start_send(1).unwrap();
    let first = Arc::new(Count(AtomicUsize::new(0)));
    let first_waker = Waker::from(first.clone());
    let latest = Arc::new(Count(AtomicUsize::new(0)));
    let latest_waker = Waker::from(latest.clone());
    assert_eq!(
        tx.poll_ready(&mut Context::from_waker(&first_waker)),
        Poll::Pending
    );
    assert_eq!(
        tx.poll_ready(&mut Context::from_waker(&latest_waker)),
        Poll::Pending
    );
    assert_eq!(block_on(async { rx.next().await }), Some(1));
    assert_eq!(first.get(), 0);
    assert_eq!(latest.get(), 1);

    let (mut tx, rx) = mpsc::channel::<u8>(1);
    tx.start_send(1).unwrap();
    assert_eq!(
        tx.poll_ready(&mut Context::from_waker(&latest_waker)),
        Poll::Pending
    );
    drop(rx);
    assert_eq!(latest.get(), 2);
    assert_eq!(
        tx.poll_ready(&mut Context::from_waker(&latest_waker)),
        Poll::Ready(Err(TrySendError::Closed(())))
    );
    assert_eq!(latest.get(), 2);
}

#[test]
fn readiness_keeps_no_place() {
    let (mut tx, mut rx) = mpsc::channel::<u8>(1);
    tx.start_send(1).unwrap();
    assert_eq!(tx.poll_ready(&mut noop_context()), Poll::Pending);
    assert_eq!(block_on(async { rx.next().await }), Some(1));
    assert_eq!(tx.poll_ready(&mut noop_context()), Poll::Ready(Ok(())));
    assert_eq!(tx.capacity(), 1);
    assert_eq!(tx.poll_ready(&mut noop_context()), Poll::Ready(Ok(())));
    assert_eq!(tx.capacity(), 1);
    assert_eq!(tx.start_send(2), Ok(()));
}

#[test]
fn clone_leaves_the_wait_behind() {
    let (mut tx, _rx) = mpsc::channel::<u8>(1);
    tx.start_send(1).unwrap();
    assert_eq!(tx.poll_ready(&mut noop_context()), Poll::Pending);
    assert_eq!(tx.strong_count(), 2);
    let clone = tx.clone();
    assert_eq!(tx.strong_count(), 3);
    assert_eq!(tx.weak_count(), 0);
    assert_eq!(tx.capacity(), 0);
    drop(clone);
    assert_eq!(tx.strong_count(), 2);
    assert_eq!(tx.poll_ready(&mut noop_context()), Poll::Pending);
}

#[test]
fn closed_channel_is_not_ready() {
    let (mut tx, rx) = mpsc::channel::<u8>(1);
    drop(rx);
    assert_eq!(
        tx.poll_ready(&mut panic_context()),
        Poll::Ready(Err(TrySendError::Closed(())))
    );
}

#[test]
fn wait_is_kept_until_a_place_is_free() {
    let (mut tx, mut rx) = mpsc::channel::<u8>(1);
    tx.start_send(1).unwrap();
    let count = Arc::new(Count(AtomicUsize::new(0)));
    let waker = Waker::from(count.clone());
    let cx = &mut Context::from_waker(&waker);

    assert_eq!(tx.strong_count(), 1);
    assert_eq!(tx.poll_ready(cx), Poll::Pending);
    // The wait holds a handle of its own, and the second poll goes on with it.
    assert_eq!(tx.strong_count(), 2);
    assert_eq!(tx.poll_ready(cx), Poll::Pending);
    assert_eq!(tx.strong_count(), 2);
    assert_eq!(tx.clone().strong_count(), 3);
    assert_eq!(count.get(), 0);

    assert_eq!(block_on(async { rx.next().await }), Some(1));
    assert_eq!(count.get(), 1);
    assert_eq!(tx.poll_ready(cx), Poll::Ready(Ok(())));
    assert_eq!(count.get(), 2);
    assert_eq!(tx.strong_count(), 1);
    assert_eq!(tx.capacity(), 1);
    assert_eq!(tx.start_send(2), Ok(()));
}

#[test]
fn close_is_told_while_waiting() {
    let (mut tx, rx) = mpsc::channel::<u8>(1);
    tx.start_send(1).unwrap();
    assert_eq!(tx.poll_ready(&mut noop_context()), Poll::Pending);
    drop(rx);
    assert_eq!(
        tx.poll_ready(&mut noop_context()),
        Poll::Ready(Err(TrySendError::Closed(())))
    );
    // The wait is left as it was.
    assert_eq!(tx.strong_count(), 2);
}

#[test]
fn free_place_ends_a_wait() {
    let (mut tx, mut rx) = mpsc::channel::<u8>(1);
    tx.start_send(1).unwrap();
    assert_eq!(tx.poll_ready(&mut noop_context()), Poll::Pending);
    let (other, _other_rx) = tokio::sync::mpsc::channel::<u8>(1);
    *tx.as_mut() = other;
    // The other channel has a free place, so the wait on the first is given up.
    assert_eq!(tx.poll_ready(&mut noop_context()), Poll::Ready(Ok(())));
    assert_eq!(block_on(async { rx.next().await }), Some(1));
    assert_eq!(block_on(async { rx.next().await }), None);
}

#[test]
fn flush_and_close_are_always_ready() {
    let (mut tx, rx) = mpsc::channel::<u8>(1);
    tx.start_send(1).unwrap();
    let cx = &mut panic_context();
    assert_eq!(tx.poll_flush(cx), Poll::Ready(Ok(())));
    assert_eq!(tx.poll_close(cx), Poll::Ready(Ok(())));
    drop(rx);
    assert_eq!(tx.poll_flush(cx), Poll::Ready(Ok(())));
    assert_eq!(tx.poll_close(cx), Poll::Ready(Ok(())));
}

#[test]
fn sender_goes_from_thread_to_thread() {
    let (mut tx, _rx) = mpsc::channel::<u8>(1);
    tx.start_send(1).unwrap();
    assert_eq!(tx.poll_ready(&mut noop_context()), Poll::Pending);
    is_send(&tx);
    is_sync(&tx);
    is_send(&tx.send(1));
    is_send(&tx.reserve());
}

#[test]
fn item_is_taken_where_a_place_is_free() {
    let (mut tx, rx) = mpsc::channel::<u8>(2);
    for item in 0..2 {
        assert_eq!(tx.poll_ready(&mut noop_context()), Poll::Ready(Ok(())));
        assert_eq!(tx.start_send(item), Ok(()));
    }
    assert!(!tx.is_closed());
    assert_eq!(tx.capacity(), 0);
    assert_eq!(tx.start_send(2), Err(TrySendError::Full(())));
    assert_eq!(tx.try_send(2), Err(TrySendError::Full(2)));
    drop(rx);
    assert!(tx.is_closed());
    assert_eq!(tx.start_send(2), Err(TrySendError::Closed(())));
    assert_eq!(tx.try_send(2), Err(TrySendError::Closed(2)));
}

#[test]
fn error_of_a_sink_tells_only_that_the_item_was_not_sent() {
    assert_eq!(mpsc::not_sent(TrySendError::Full(())), SendError(()));
    assert_eq!(mpsc::not_sent(TrySendError::Closed(())), SendError(()));
}

#[test]
fn new_channel_is_open_and_free() {
    let (tx, _rx) = mpsc::channel::<u8>(3);
    assert!(!tx.is_closed());
    assert_eq!(tx.capacity(), 3);
    assert_eq!(tx.max_capacity(), 3);
}

#[test]
fn places_are_taken_where_they_are_free() {
    let (tx, rx) = mpsc::channel::<u8>(3);
    let two = tx.try_reserve_many(2).unwrap();
    assert_eq!(tx.capacity(), 1);
    assert!(matches!(
        tx.try_reserve_many(2),
        Err(TrySendError::Full(()))
    ));
    assert_eq!(tx.capacity(), 1);
    let owned = tx.clone().try_reserve_owned().unwrap();
    assert!(matches!(tx.try_reserve(), Err(TrySendError::Full(()))));
    match tx.clone().try_reserve_owned() {
        Err(TrySendError::Full(back)) => assert!(back.same_channel(&tx)),
        _ => panic!("no place is free"),
    }
    drop(rx);
    assert!(matches!(tx.try_reserve(), Err(TrySendError::Closed(()))));
    assert!(matches!(
        tx.try_reserve_many(2),
        Err(TrySendError::Closed(()))
    ));
    match tx.clone().try_reserve_owned() {
        Err(TrySendError::Closed(back)) => assert!(back.same_channel(&tx)),
        _ => panic!("the channel is closed"),
    }
    drop(two);
    drop(owned);
}
