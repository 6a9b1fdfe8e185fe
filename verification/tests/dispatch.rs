//! Dispatcher behaviour: submission over the bounded channel, notifications,
//! closed-channel failures, and an end-to-end call round trip.

use librpc::dispatcher::Dispatcher;
use librpc::errors::PollOutcome;
use librpc::errors::RpcError;
use librpc::timer::TickTimer;

#[test]
fn test_timeout() {
    let (mut dispatcher, _receiver) =
        Dispatcher::<String, String, String, u32>::new(100);

    let mut response = dispatcher
        .call(0, "hello".to_owned(), Some(TickTimer::new(2)))
        .unwrap();

    let mut outcome = response.poll(&mut dispatcher.responder, 1);
    while outcome == PollOutcome::Pending {
        outcome = response.poll(&mut dispatcher.responder, 1);
    }
    match outcome {
        PollOutcome::Ready(result) => {
            result.expect_err("Timeout expect");
        }
        PollOutcome::Pending => unreachable!(),
    }
}

#[test]
fn call_round_trip_on_capacity_one() {
    let (mut dispatcher, receiver) = Dispatcher::<String, String, String, u32>::new(1);

    let mut response = dispatcher
        .call(0, "a".to_owned(), None::<TickTimer>)
        .expect("healthy channel");

    // The transport consumer sees exactly the submitted item and replies.
    assert_eq!(receiver.try_recv().unwrap(), (Some(0), "a".to_owned()));
    let waiter = dispatcher.responder.complete(0, Ok("a".to_owned()));
    assert!(waiter.is_none());

    match response.poll(&mut dispatcher.responder, 1) {
        PollOutcome::Ready(Ok(v)) => assert_eq!(v, "a"),
        other => panic!("expected the reply, got {:?}", other),
    }
}

#[test]
fn call_with_timeout_and_no_reply_times_out() {
    let (mut dispatcher, receiver) = Dispatcher::<String, String, String, u32>::new(1);

    let mut response = dispatcher
        .call(1, "b".to_owned(), Some(TickTimer::new(1)))
        .expect("healthy channel");
    assert_eq!(receiver.try_recv().unwrap(), (Some(1), "b".to_owned()));

    assert_eq!(
        response.poll(&mut dispatcher.responder, 1),
        PollOutcome::Pending
    );
    assert_eq!(
        response.poll(&mut dispatcher.responder, 1),
        PollOutcome::Ready(Err(RpcError::Timeout))
    );
}

#[test]
fn call_on_closed_channel_fails_without_a_response() {
    let (mut dispatcher, receiver) = Dispatcher::<String, String, String, u32>::new(1);
    drop(receiver);

    match dispatcher.call(2, "c".to_owned(), None::<TickTimer>) {
        Err(RpcError::ChannelClosed) => {}
        Ok(_) => panic!("a closed channel must not produce a response"),
        Err(other) => panic!("expected ChannelClosed, got {:?}", other),
    }
}

#[test]
fn notification_succeeds_and_tracks_nothing() {
    let (mut dispatcher, receiver) = Dispatcher::<String, String, String, u32>::new(2);

    dispatcher
        .notification("fire and forget".to_owned())
        .expect("healthy channel");
    assert_eq!(
        receiver.try_recv().unwrap(),
        (None, "fire and forget".to_owned())
    );

    // No completion-table entry was made: a later delivery for any id finds
    // no waiter to signal.
    assert!(dispatcher.responder.complete(0, Ok("x".to_owned())).is_none());
}

#[test]
fn notification_on_closed_channel_fails() {
    let (mut dispatcher, receiver) = Dispatcher::<String, String, String, u32>::new(1);
    drop(receiver);

    assert_eq!(
        dispatcher.notification("lost".to_owned()),
        Err(RpcError::ChannelClosed)
    );
}

#[test]
fn outbound_channel_is_fifo() {
    let (mut dispatcher, receiver) = Dispatcher::<String, String, String, u32>::new(3);

    dispatcher
        .call(0, "first".to_owned(), None::<TickTimer>)
        .unwrap();
    dispatcher.notification("second".to_owned()).unwrap();
    dispatcher
        .call(1, "third".to_owned(), None::<TickTimer>)
        .unwrap();

    assert_eq!(receiver.try_recv().unwrap(), (Some(0), "first".to_owned()));
    assert_eq!(receiver.try_recv().unwrap(), (None, "second".to_owned()));
    assert_eq!(receiver.try_recv().unwrap(), (Some(1), "third".to_owned()));
    assert!(receiver.try_recv().is_err());
}

#[test]
fn client_holds_a_closed_channel() {
    let client: librpc::client::Client<u64> = librpc::client::Client::new(4);
    // Nothing can ever arrive: the producing end was dropped at creation.
    let _ = client;
}
