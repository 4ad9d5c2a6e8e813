use core::future::Future;
use core::task::Poll;
use futures_test::task::{noop_context, panic_context};
use smpsc::oneshot::{self, Receiver, Sender};

fn block_on<F: Future>(f: F) -> F::Output {
    tokio::runtime::Builder::new_current_thread()
        .build()
        .unwrap()
        .block_on(f)
}

#[test]
fn value_goes_through() {
    let (tx, rx) = oneshot::channel::<u8>();
    assert!(!tx.is_closed());
    assert_eq!(tx.send(3), Ok(()));
    assert_eq!(block_on(rx.into_inner()), Ok(3));
}

#[test]
fn once_wrapping_gives_the_handle_back() {
    let (tx, rx) = tokio::sync::oneshot::channel::<u8>();
    let tx = Sender::new(tx).into_inner().unwrap();
    let rx = Receiver::new(rx);
    let tx = Sender::from(tx).into_inner().unwrap();
    assert_eq!(tx.send(8), Ok(()));
    assert_eq!(block_on(rx.into_inner()), Ok(8));
}

#[test]
fn value_comes_back_when_the_receiver_is_gone() {
    let (tx, rx) = oneshot::channel::<u8>();
    drop(rx);
    assert!(tx.is_closed());
    assert_eq!(tx.send(4), Err(4));

    let (mut tx, rx) = oneshot::channel::<u8>();
    drop(rx);
    assert_eq!(tx.start_send(5), Err(5));
    assert!(tx.0.is_none());
}

#[test]
fn only_one_item_is_sent() {
    let (mut tx, rx) = oneshot::channel::<u8>();
    let cx = &mut panic_context();
    assert_eq!(tx.poll_ready(cx), Poll::Ready(Ok(())));
    assert_eq!(tx.start_send(1), Ok(()));
    assert_eq!(tx.poll_flush(cx), Poll::Ready(Ok(())));
    assert_eq!(tx.poll_ready(cx), Poll::Ready(Ok(())));
    assert_eq!(tx.start_send(2), Err(2));
    assert!(tx.is_closed());
    assert_eq!(tx.poll_closed(cx), Poll::Ready(()));
    block_on(tx.closed());
    assert_eq!(tx.send(3), Err(3));
    assert_eq!(block_on(rx.into_inner()), Ok(1));
}

#[test]
fn close_gives_the_handle_up() {
    let (mut tx, rx) = oneshot::channel::<u8>();
    let cx = &mut panic_context();
    assert_eq!(tx.poll_close(cx), Poll::Ready(Ok(())));
    assert!(tx.is_closed());
    assert_eq!(tx.start_send(1), Err(1));
    assert!(tx.into_inner().is_none());
    assert!(block_on(rx.into_inner()).is_err());
}

#[test]
fn once_closed_is_done_when_the_receiver_is_gone() {
    let (mut tx, rx) = oneshot::channel::<u8>();
    assert_eq!(tx.poll_closed(&mut noop_context()), Poll::Pending);
    {
        let mut closed = Box::pin(tx.closed());
        assert!(closed.as_mut().poll(&mut noop_context()).is_pending());
    }
    drop(rx);
    block_on(tx.closed());
    assert_eq!(tx.poll_closed(&mut noop_context()), Poll::Ready(()));
    assert!(tx.is_closed());
    assert!(tx.into_inner().is_some());
}

#[test]
fn used_sender_has_nothing_to_give() {
    let spent = Sender::<u8>(None);
    assert!(spent.is_closed());
    assert!(spent.into_inner().is_none());
    assert_eq!(Sender::<u8>(None).send(6), Err(6));
}

#[test]
fn value_is_taken_while_the_receiver_is_there() {
    let (mut tx, rx) = oneshot::channel::<u8>();
    assert!(!tx.is_closed());
    assert_eq!(tx.start_send(1), Ok(()));
    assert_eq!(tx.start_send(2), Err(2));
    drop(rx);

    let (tx, rx) = oneshot::channel::<u8>();
    drop(rx);
    assert!(tx.is_closed());
    assert_eq!(tx.send(3), Err(3));
}

#[test]
fn new_channel_for_one_value_is_open() {
    let (tx, _rx) = oneshot::channel::<u8>();
    assert!(tx.0.is_some());
    assert!(!tx.is_closed());
}
