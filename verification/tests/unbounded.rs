use core::future::Future;
use core::task::Poll;
use futures_test::task::{noop_context, panic_context};
use smpsc::mpsc::{self, SendError, UnboundedSender};
use tokio_stream::StreamExt;

fn block_on<F: Future>(f: F) -> F::Output {
    tokio::runtime::Builder::new_current_thread()
        .build()
        .unwrap()
        .block_on(f)
}

#[test]
fn unbounded_wrapping_gives_the_handle_back() {
    let (tx, _rx) = tokio::sync::mpsc::unbounded_channel::<u8>();
    let kept = tx.clone();
    let by_new = UnboundedSender::new(tx);
    assert!(by_new.as_ref().same_channel(&kept));
    assert!(by_new.into_inner().same_channel(&kept));
    let by_from = UnboundedSender::from(kept.clone());
    assert!(by_from.into_inner().same_channel(&kept));
}

#[test]
fn unbounded_as_mut_replaces_the_handle() {
    let (mut tx, _rx) = mpsc::unbounded_channel::<u8>();
    let (other, mut other_rx) = tokio::sync::mpsc::unbounded_channel::<u8>();
    *tx.as_mut() = other;
    tx.send(4).unwrap();
    assert_eq!(other_rx.try_recv(), Ok(4));
}

#[test]
fn unbounded_same_channel_is_shared_by_clones_only() {
    let (tx, _rx) = mpsc::unbounded_channel::<u8>();
    let (other, _other_rx) = mpsc::unbounded_channel::<u8>();
    let clone = tx.clone();
    assert!(tx.same_channel(&tx));
    assert!(tx.same_channel(&clone));
    assert!(clone.same_channel(&tx));
    assert!(!tx.same_channel(&other));
}

#[test]
fn unbounded_messages_arrive_in_order() {
    let (mut tx, mut rx) = smpsc::unbounded_channel::<u8>();
    let cx = &mut panic_context();
    tx.send(1).unwrap();
    assert_eq!(tx.poll_ready(cx), Poll::Ready(Ok(())));
    assert_eq!(tx.start_send(2), Ok(()));
    assert_eq!(tx.poll_flush(cx), Poll::Ready(Ok(())));
    assert_eq!(tx.poll_close(cx), Poll::Ready(Ok(())));
    tx.send(3).unwrap();
    drop(tx);
    assert_eq!(block_on(async { rx.next().await }), Some(1));
    assert_eq!(block_on(async { rx.next().await }), Some(2));
    assert_eq!(block_on(async { rx.next().await }), Some(3));
    assert_eq!(block_on(async { rx.next().await }), None);
}

#[test]
fn unbounded_message_comes_back_when_closed() {
    let (mut tx, rx) = mpsc::unbounded_channel::<u8>();
    assert!(!tx.is_closed());
    drop(rx);
    assert!(tx.is_closed());
    assert_eq!(tx.send(5), Err(SendError(5)));
    assert_eq!(tx.start_send(6), Err(SendError(6)));
    assert_eq!(tx.poll_ready(&mut panic_context()), Poll::Ready(Ok(())));
}

#[test]
fn unbounded_handles_are_counted() {
    let (tx, _rx) = mpsc::unbounded_channel::<u8>();
    let clone = tx.clone();
    let weak = tx.downgrade();
    assert_eq!(tx.strong_count(), 2);
    assert_eq!(tx.weak_count(), 1);
    assert!(weak.upgrade().unwrap().same_channel(clone.as_ref()));
    drop(weak);
    drop(clone);
    assert_eq!(tx.strong_count(), 1);
    assert_eq!(tx.weak_count(), 0);
}

#[test]
fn unbounded_closed_is_done_when_the_receiver_is_gone() {
    let (tx, rx) = mpsc::unbounded_channel::<u8>();
    {
        let mut closed = Box::pin(tx.closed());
        assert!(closed.as_mut().poll(&mut noop_context()).is_pending());
    }
    drop(rx);
    block_on(tx.closed());
    assert!(tx.is_closed());
}

#[test]
fn message_is_taken_while_the_channel_is_open() {
    let (mut tx, rx) = mpsc::unbounded_channel::<u8>();
    assert!(!tx.is_closed());
    assert!(tx.send(1).is_ok());
    assert!(tx.start_send(2).is_ok());
    drop(rx);
    assert!(tx.is_closed());
    assert_eq!(tx.send(3).unwrap_err().0, 3);
    assert_eq!(tx.start_send(4).unwrap_err().0, 4);
}

#[test]
fn new_unbounded_channel_is_open() {
    let (tx, _rx) = mpsc::unbounded_channel::<u8>();
    assert!(!tx.is_closed());
}
