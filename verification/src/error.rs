//! Every failure that a transport may report.
//!
//! A transport maps whatever goes wrong on its side to one of these values;
//! callers handle them by exhaustive matching.
use vstd::prelude::*;
use vstd::string::StringExecFns;
use std::sync::mpsc::RecvError;

verus! {

/// `std::sync::mpsc::RecvError`: the channel was closed with nothing in it.
#[verifier::external_type_specification]
#[verifier::external_body]
pub struct ExRecvError(RecvError);

/// The text that `RecvError` displays as.
pub uninterp spec fn recv_error_text(cause: RecvError) -> Seq<char>;

/// Calls `to_string` on a `RecvError`, which formats it through its `Display`
/// impl. The text depends on the value alone; the contract gives it a name
/// and claims nothing else of it.
#[verifier::external_body]
fn recv_error_to_string(cause: &RecvError) -> (text: String)
    ensures
        text@ == recv_error_text(*cause),
{
    cause.to_string()
}

/// Why a message could not be handed to the transport.
#[derive(Debug)]
pub enum SendError {
    /// The remote end, or the channel below, is gone.
    DisconnectedError,
    /// The transport could not take the message within its own budget.
    TimeoutError,
    /// Anything else, with a description for a human reader.
    UnknownError(String),
}

impl SendError {
    /// A description is owed by `UnknownError`, and it is not empty.
    pub open spec fn well_formed(&self) -> bool {
        match self {
            SendError::UnknownError(description) => description@.len() > 0,
            _ => true,
        }
    }

    /// The text of this error.
    pub open spec fn spec_message(&self) -> Seq<char> {
        match self {
            SendError::DisconnectedError => "DisconnectedError"@,
            SendError::TimeoutError => "TimeoutError"@,
            SendError::UnknownError(description) => "UnknownError: "@ + description@,
        }
    }

    /// The text of this error: the variant's name, followed for
    /// `UnknownError` by a colon, a space and the description.
    pub fn message(&self) -> (text: String)
        ensures
            text@ == self.spec_message(),
    {
        match self {
            SendError::DisconnectedError => String::from_str("DisconnectedError"),
            SendError::TimeoutError => String::from_str("TimeoutError"),
            SendError::UnknownError(description) => {
                String::from_str("UnknownError: ").concat(description.as_str())
            },
        }
    }
}

/// Why no reply was obtained.
#[derive(Debug)]
pub enum ReceiveError {
    /// No reply came within the time the caller allowed.
    TimeoutError,
    /// The channel that was to deliver the reply broke; the cause is kept.
    ChannelError(RecvError),
    /// The transport said that the connection is gone.
    DisconnectedError,
}

impl ReceiveError {
    /// The text of this error.
    pub open spec fn spec_message(&self) -> Seq<char> {
        match self {
            ReceiveError::TimeoutError => "TimeoutError"@,
            ReceiveError::ChannelError(cause) => "ChannelError: "@ + recv_error_text(*cause),
            ReceiveError::DisconnectedError => "DisconnectedError"@,
        }
    }

    /// The error below this one, if any.
    pub open spec fn spec_source(&self) -> Option<RecvError> {
        match self {
            ReceiveError::ChannelError(cause) => Some(*cause),
            _ => None,
        }
    }

    /// The text of this error: the variant's name, followed for
    /// `ChannelError` by a colon, a space and the text of the cause.
    pub fn message(&self) -> (text: String)
        ensures
            text@ == self.spec_message(),
    {
        match self {
            ReceiveError::TimeoutError => String::from_str("TimeoutError"),
            ReceiveError::ChannelError(cause) => {
                let detail = recv_error_to_string(cause);
                String::from_str("ChannelError: ").concat(detail.as_str())
            },
            ReceiveError::DisconnectedError => String::from_str("DisconnectedError"),
        }
    }

    /// The error below this one: the cause of a `ChannelError`, nothing for
    /// the other two.
    pub fn source(&self) -> (cause: Option<&RecvError>)
        ensures
            cause.is_some() == self.spec_source().is_some(),
            cause matches Some(inner) ==> self.spec_source() == Some(*inner),
    {
        match self {
            ReceiveError::ChannelError(cause) => Some(cause),
            _ => None,
        }
    }
}

impl Clone for ReceiveError {
    fn clone(&self) -> (copy: ReceiveError)
        ensures
            copy == *self,
    {
        match self {
            ReceiveError::TimeoutError => ReceiveError::TimeoutError,
            ReceiveError::ChannelError(cause) => ReceiveError::ChannelError(*cause),
            ReceiveError::DisconnectedError => ReceiveError::DisconnectedError,
        }
    }
}

} // verus!
