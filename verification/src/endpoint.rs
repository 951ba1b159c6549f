//! The receiving end of the channel on which a reply arrives.
use vstd::prelude::*;
use std::sync::mpsc::Receiver;
use std::sync::mpsc::RecvError;
use std::sync::mpsc::RecvTimeoutError;
use std::time::Duration;
use crate::envelope::Message;
use crate::envelope::MessageView;
use crate::error::ReceiveError;

verus! {

/// `std::sync::mpsc::Receiver`, carried through as an opaque value.
#[verifier::external_type_specification]
#[verifier::external_body]
#[verifier::reject_recursive_types(T)]
pub struct ExReceiver<T>(Receiver<T>);

/// `std::sync::mpsc::RecvTimeoutError`: a bounded wait ended without a value.
#[verifier::external_type_specification]
#[verifier::external_body]
pub struct ExRecvTimeoutError(RecvTimeoutError);

/// What a request ends in: the reply, or the reason why there is none.
pub type MessageResult = Result<Message, ReceiveError>;

/// The end of a channel on which such results arrive.
pub type MessageReceiver = Receiver<MessageResult>;

/// A result as plain values.
pub type ReplyView = Result<MessageView, ReceiveError>;

/// What a result is, as plain values: the message by its view, an error as
/// it stands.
pub open spec fn reply_view(result: MessageResult) -> ReplyView {
    match result {
        Ok(message) => Ok(message@),
        Err(error) => Err(error),
    }
}

/// Calls `Receiver::recv`: waits until a value is on the channel or every
/// sender is gone. What comes back depends on the other end of the channel,
/// so nothing is claimed of it.
#[verifier::external_body]
pub(crate) fn recv_blocking<T>(rx: &Receiver<T>) -> (outcome: Result<T, RecvError>) {
    rx.recv()
}

/// Calls `Receiver::recv_timeout`: waits for a value no longer than `timeout`.
/// What comes back depends on the other end of the channel and on the clock,
/// so nothing is claimed of it.
#[verifier::external_body]
pub(crate) fn recv_within<T>(rx: &Receiver<T>, timeout: Duration) -> (outcome: Result<
    T,
    RecvTimeoutError,
>) {
    rx.recv_timeout(timeout)
}

} // verus!
