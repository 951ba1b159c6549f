use std::sync::mpsc::channel;
use std::sync::mpsc::RecvError;
use std::sync::mpsc::RecvTimeoutError;
use std::time::Duration;

use messaging::endpoint::MessageResult;
use messaging::envelope::Message;
use messaging::envelope::MessageType;
use messaging::error::ReceiveError;
use messaging::future::clone_result;
use messaging::future::settle;
use messaging::future::settle_timeout;
use messaging::future::MessageFuture;

fn make_ping(correlation_id: &str) -> Message {
    let mut message = Message::new();
    message.set_message_type(MessageType::PingRequest);
    message.set_correlation_id(String::from(correlation_id));
    message.set_content(String::from("PING").into_bytes());

    message
}

fn make_message(message_type: MessageType, correlation_id: &str, content: &[u8]) -> Message {
    let mut message = Message::new();
    message.set_message_type(message_type);
    message.set_correlation_id(String::from(correlation_id));
    message.set_content(content.to_vec());

    message
}

#[test]
fn future_get() {
    let (tx, rx) = channel();

    let mut fut = MessageFuture::new(rx);

    tx.send(Ok(make_ping("my_test"))).unwrap();

    let msg = fut.get().expect("Should have a message");

    assert_eq!(msg, make_ping("my_test"));
}

#[test]
fn get_returns_the_first_value_every_time() {
    let (tx, rx) = channel();
    let mut fut = MessageFuture::new(rx);
    tx.send(Ok(make_ping("first"))).unwrap();
    tx.send(Ok(make_ping("second"))).unwrap();

    for _ in 0..5 {
        let msg = fut.get().expect("Should have a message");
        assert_eq!(msg, make_ping("first"));
    }
}

#[test]
fn get_does_not_read_the_channel_again() {
    let (tx, rx) = channel();
    let mut fut = MessageFuture::new(rx);
    tx.send(Ok(make_ping("only"))).unwrap();

    assert_eq!(fut.get().expect("Should have a message"), make_ping("only"));

    // With the sender gone a second read of the channel would fail.
    drop(tx);
    assert_eq!(fut.get().expect("Should still have it"), make_ping("only"));
    assert_eq!(
        fut.get_timeout(Duration::from_millis(1)).expect("Should still have it"),
        make_ping("only")
    );
    assert_eq!(
        fut.get_maybe_timeout(None).expect("Should still have it"),
        make_ping("only")
    );
}

#[test]
fn end_to_end_ping() {
    let (tx, rx) = channel();
    let mut fut = MessageFuture::new(rx);
    let sent = make_message(MessageType::PingRequest, "abc", b"PING");
    tx.send(Ok(sent.clone())).unwrap();
    drop(tx);

    let first = fut.get().expect("Should have a message");
    assert_eq!(first.get_message_type(), MessageType::PingRequest);
    assert_eq!(first.get_correlation_id(), "abc");
    assert_eq!(first.get_content(), b"PING");
    assert_eq!(first, sent);

    let second = fut.get().expect("Should have the same message");
    assert_eq!(second, sent);
}

#[test]
fn get_timeout_returns_a_value_that_is_there() {
    let (tx, rx) = channel();
    let mut fut = MessageFuture::new(rx);
    tx.send(Ok(make_ping("in_time"))).unwrap();

    let msg = fut
        .get_timeout(Duration::from_millis(200))
        .expect("Should have a message");
    assert_eq!(msg, make_ping("in_time"));

    drop(tx);
    assert_eq!(fut.get().expect("Should be kept"), make_ping("in_time"));
    assert_eq!(
        fut.get_timeout(Duration::from_millis(1)).expect("Should be kept"),
        make_ping("in_time")
    );
}

#[test]
fn get_timeout_expires_and_keeps_nothing() {
    let (tx, rx) = channel();
    let mut fut = MessageFuture::new(rx);

    let early = fut.get_timeout(Duration::from_millis(10));
    assert!(matches!(early, Err(ReceiveError::TimeoutError)));
    let again = fut.get_timeout(Duration::from_millis(0));
    assert!(matches!(again, Err(ReceiveError::TimeoutError)));

    tx.send(Ok(make_ping("late"))).unwrap();
    let late = fut.get_timeout(Duration::from_millis(200));
    assert_eq!(late.expect("Should have arrived"), make_ping("late"));
    assert_eq!(fut.get().expect("Should be kept"), make_ping("late"));
}

#[test]
fn get_after_an_expired_wait_obtains_the_value() {
    let (tx, rx) = channel();
    let mut fut = MessageFuture::new(rx);

    assert!(matches!(
        fut.get_timeout(Duration::from_millis(5)),
        Err(ReceiveError::TimeoutError)
    ));
    tx.send(Ok(make_ping("late"))).unwrap();
    assert_eq!(fut.get().expect("Should have arrived"), make_ping("late"));
}

#[test]
fn closed_channel_is_a_channel_error_for_get() {
    let (tx, rx) = channel::<MessageResult>();
    let mut fut = MessageFuture::new(rx);
    drop(tx);

    match fut.get() {
        Err(ReceiveError::ChannelError(cause)) => assert_eq!(cause, RecvError),
        other => panic!("expected a channel error, got {:?}", other),
    }
    // Nothing was kept: the next call looks at the channel again.
    assert!(matches!(fut.get(), Err(ReceiveError::ChannelError(_))));
}

#[test]
fn closed_channel_is_a_timeout_for_get_timeout() {
    let (tx, rx) = channel::<MessageResult>();
    let mut fut = MessageFuture::new(rx);
    drop(tx);

    assert!(matches!(
        fut.get_timeout(Duration::from_nanos(1)),
        Err(ReceiveError::TimeoutError)
    ));
    assert!(matches!(
        fut.get_timeout(Duration::from_secs(2)),
        Err(ReceiveError::TimeoutError)
    ));
    assert!(matches!(
        fut.get_maybe_timeout(Some(Duration::from_millis(0))),
        Err(ReceiveError::TimeoutError)
    ));
    assert!(matches!(fut.get(), Err(ReceiveError::ChannelError(_))));
}

#[test]
fn get_maybe_timeout_without_a_limit_is_get() {
    let (tx, rx) = channel::<MessageResult>();
    let mut fut = MessageFuture::new(rx);
    drop(tx);
    assert!(matches!(
        fut.get_maybe_timeout(None),
        Err(ReceiveError::ChannelError(_))
    ));

    let (tx, rx) = channel();
    let mut fut = MessageFuture::new(rx);
    tx.send(Ok(make_ping("unbounded"))).unwrap();
    assert_eq!(
        fut.get_maybe_timeout(None).expect("Should have a message"),
        make_ping("unbounded")
    );
}

#[test]
fn get_maybe_timeout_with_a_limit_is_get_timeout() {
    let (tx, rx) = channel();
    let mut fut = MessageFuture::new(rx);
    assert!(matches!(
        fut.get_maybe_timeout(Some(Duration::from_millis(5))),
        Err(ReceiveError::TimeoutError)
    ));
    tx.send(Ok(make_ping("bounded"))).unwrap();
    assert_eq!(
        fut.get_maybe_timeout(Some(Duration::from_millis(200)))
            .expect("Should have a message"),
        make_ping("bounded")
    );
}

#[test]
fn an_error_that_arrives_is_kept_like_a_value() {
    let (tx, rx) = channel::<MessageResult>();
    let mut fut = MessageFuture::new(rx);
    tx.send(Err(ReceiveError::DisconnectedError)).unwrap();
    tx.send(Ok(make_ping("too_late"))).unwrap();

    assert!(matches!(fut.get(), Err(ReceiveError::DisconnectedError)));
    assert!(matches!(fut.get(), Err(ReceiveError::DisconnectedError)));
    assert!(matches!(
        fut.get_timeout(Duration::from_millis(1)),
        Err(ReceiveError::DisconnectedError)
    ));
}

#[test]
fn settle_keeps_a_value() {
    let (reply, kept) = settle(Ok(Ok(make_ping("v"))));
    assert_eq!(reply.expect("a value"), make_ping("v"));
    assert_eq!(kept.expect("kept").expect("a value"), make_ping("v"));

    let (reply, kept) = settle(Ok(Err(ReceiveError::DisconnectedError)));
    assert!(matches!(reply, Err(ReceiveError::DisconnectedError)));
    assert!(matches!(kept, Some(Err(ReceiveError::DisconnectedError))));
}

#[test]
fn settle_wraps_a_closed_channel() {
    let (reply, kept) = settle(Err(RecvError));
    assert!(matches!(reply, Err(ReceiveError::ChannelError(RecvError))));
    assert!(kept.is_none());
}

#[test]
fn settle_timeout_keeps_a_value() {
    let (reply, kept) = settle_timeout(Ok(Ok(make_ping("v"))));
    assert_eq!(reply.expect("a value"), make_ping("v"));
    assert_eq!(kept.expect("kept").expect("a value"), make_ping("v"));
}

#[test]
fn settle_timeout_collapses_every_failure() {
    let (reply, kept) = settle_timeout(Err(RecvTimeoutError::Timeout));
    assert!(matches!(reply, Err(ReceiveError::TimeoutError)));
    assert!(kept.is_none());

    let (reply, kept) = settle_timeout(Err(RecvTimeoutError::Disconnected));
    assert!(matches!(reply, Err(ReceiveError::TimeoutError)));
    assert!(kept.is_none());
}

#[test]
fn clone_result_copies_both_sides() {
    let value: MessageResult = Ok(make_ping("copy"));
    assert_eq!(clone_result(&value).expect("a value"), make_ping("copy"));

    let error: MessageResult = Err(ReceiveError::ChannelError(RecvError));
    assert!(matches!(
        clone_result(&error),
        Err(ReceiveError::ChannelError(RecvError))
    ));
    let error: MessageResult = Err(ReceiveError::TimeoutError);
    assert!(matches!(clone_result(&error), Err(ReceiveError::TimeoutError)));
}
