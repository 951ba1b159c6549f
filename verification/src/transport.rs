//! What a transport has to offer.
//!
//! A transport moves messages between two processes. The layers above it see
//! it only through these two traits, and see its failures only as the values
//! of [`SendError`] and [`ReceiveError`](crate::error::ReceiveError).
use vstd::prelude::*;
use crate::endpoint::MessageReceiver;
use crate::envelope::MessageType;
use crate::error::SendError;
use crate::future::MessageFuture;

verus! {

/// The sending side of a connection.
pub trait MessageSender {
    /// Whether this sender has been closed.
    spec fn is_closed(&self) -> bool;

    /// Hands a request to the transport. Where the transport takes it, the
    /// caller gets the future of its reply; where it does not, the caller
    /// gets the reason and no future. A closed sender takes nothing.
    fn send(&self, destination: MessageType, correlation_id: &str, contents: &[u8]) -> (sent:
        Result<MessageFuture, SendError>)
        ensures
            self.is_closed() ==> sent matches Err(SendError::DisconnectedError),
            sent matches Err(error) ==> error.well_formed(),
    ;

    /// Hands the transport the reply to a request that was received under
    /// `correlation_id`. No further reply is awaited, so there is no future.
    /// A closed sender takes nothing.
    fn reply(&self, destination: MessageType, correlation_id: &str, contents: &[u8]) -> (sent:
        Result<(), SendError>)
        ensures
            self.is_closed() ==> sent matches Err(SendError::DisconnectedError),
            sent matches Err(error) ==> error.well_formed(),
    ;

    /// Gives up what the sender holds of the transport. From here on `send`
    /// and `reply` fail with `DisconnectedError`.
    fn close(&mut self)
        ensures
            final(self).is_closed(),
    ;
}

/// A connection, from which pairs of a sender and a receiver are made.
pub trait MessageConnection<MS: MessageSender> {
    /// A new sender, and the receiver of what comes in for it.
    fn create(&self) -> (pair: (MS, MessageReceiver));
}

} // verus!
