//! The promise of one reply.
//!
//! A [`MessageFuture`] owns the receiving end of a channel on which at most
//! one result is expected. The first result that a wait obtains is kept, and
//! every later call hands out a copy of it without looking at the channel
//! again. A wait that ends without a result keeps nothing, so a later call
//! waits anew.
use vstd::prelude::*;
use std::sync::mpsc::Receiver;
use std::sync::mpsc::RecvError;
use std::sync::mpsc::RecvTimeoutError;
use std::time::Duration;
use crate::endpoint::recv_blocking;
use crate::endpoint::recv_within;
use crate::endpoint::reply_view;
use crate::endpoint::MessageResult;
use crate::endpoint::ReplyView;
use crate::error::ReceiveError;

verus! {

/// A future as plain values: the result it keeps, if it has one, and how
/// often it has waited on its channel so far.
pub struct FutureState {
    pub cached: Option<ReplyView>,
    pub polls: nat,
}

/// What one wait on the channel came back with. An unbounded wait ends with a
/// result or with the channel closed; a bounded one with a result or without.
pub enum Wait {
    Unbounded(Result<ReplyView, RecvError>),
    Bounded(Result<ReplyView, RecvTimeoutError>),
}

/// What is handed to the caller, and what is kept, after an unbounded wait.
pub open spec fn settled(outcome: Result<ReplyView, RecvError>) -> (ReplyView, Option<ReplyView>) {
    match outcome {
        Ok(reply) => (reply, Some(reply)),
        Err(cause) => (Err(ReceiveError::ChannelError(cause)), None),
    }
}

/// What is handed to the caller, and what is kept, after a bounded wait.
/// Whatever ended the wait without a result counts as a timeout.
pub open spec fn settled_timeout(outcome: Result<ReplyView, RecvTimeoutError>) -> (
    ReplyView,
    Option<ReplyView>,
) {
    match outcome {
        Ok(reply) => (reply, Some(reply)),
        Err(_) => (Err(ReceiveError::TimeoutError), None),
    }
}

impl FutureState {
    /// The future that has not waited yet.
    pub open spec fn fresh() -> FutureState {
        FutureState { cached: None, polls: 0 }
    }

    /// This future after one more wait, of which `kept` is to be kept.
    pub open spec fn polled(self, kept: Option<ReplyView>) -> FutureState {
        FutureState { cached: kept, polls: self.polls + 1 }
    }

    /// `get` on this future: the future afterwards and the result, where the
    /// wait, if one is made, comes back with `outcome`.
    pub open spec fn get(self, outcome: Result<ReplyView, RecvError>) -> (FutureState, ReplyView) {
        match self.cached {
            Some(reply) => (self, reply),
            None => (self.polled(settled(outcome).1), settled(outcome).0),
        }
    }

    /// `get_timeout` on this future: the future afterwards and the result,
    /// where the wait, if one is made, comes back with `outcome`.
    pub open spec fn get_timeout(self, outcome: Result<ReplyView, RecvTimeoutError>) -> (
        FutureState,
        ReplyView,
    ) {
        match self.cached {
            Some(reply) => (self, reply),
            None => (self.polled(settled_timeout(outcome).1), settled_timeout(outcome).0),
        }
    }

    /// One call of either kind.
    pub open spec fn step(self, wait: Wait) -> (FutureState, ReplyView) {
        match wait {
            Wait::Unbounded(outcome) => self.get(outcome),
            Wait::Bounded(outcome) => self.get_timeout(outcome),
        }
    }

    /// A run of calls, one after the other: the future at the end, and the
    /// results in the order of the calls.
    pub open spec fn replay(self, waits: Seq<Wait>) -> (FutureState, Seq<ReplyView>)
        decreases waits.len(),
    {
        if waits.len() == 0 {
            (self, Seq::empty())
        } else {
            let before = self.replay(waits.drop_last());
            let last = before.0.step(waits.last());
            (last.0, before.1.push(last.1))
        }
    }

    /// `post` and `reply` are what some call of `get` on `self` leaves and
    /// returns.
    pub open spec fn get_yields(self, post: FutureState, reply: ReplyView) -> bool {
        exists|outcome: Result<ReplyView, RecvError>| #[trigger] self.get(outcome) == (post, reply)
    }

    /// `post` and `reply` are what some call of `get_timeout` on `self`
    /// leaves and returns.
    pub open spec fn get_timeout_yields(self, post: FutureState, reply: ReplyView) -> bool {
        exists|outcome: Result<ReplyView, RecvTimeoutError>| #[trigger]
            self.get_timeout(outcome) == (post, reply)
    }
}

/// What a wait came back with, as plain values.
pub open spec fn outcome_view<E>(outcome: Result<MessageResult, E>) -> Result<ReplyView, E> {
    match outcome {
        Ok(result) => Ok(reply_view(result)),
        Err(cause) => Err(cause),
    }
}

/// What a future keeps, as plain values.
pub open spec fn memo_view(memo: Option<MessageResult>) -> Option<ReplyView> {
    match memo {
        Some(result) => Some(reply_view(result)),
        None => None,
    }
}

/// A copy of a result.
pub fn clone_result(result: &MessageResult) -> (copy: MessageResult)
    ensures
        reply_view(copy) == reply_view(*result),
{
    match result {
        Ok(message) => Ok(message.clone()),
        Err(error) => Err(error.clone()),
    }
}

/// Decides what follows an unbounded wait: a result is handed on and a copy
/// of it kept; a closed channel becomes a `ChannelError` around the cause,
/// and nothing is kept.
pub fn settle(outcome: Result<MessageResult, RecvError>) -> (out: (
    MessageResult,
    Option<MessageResult>,
))
    ensures
        (reply_view(out.0), memo_view(out.1)) == settled(outcome_view(outcome)),
{
    match outcome {
        Ok(result) => {
            let kept = clone_result(&result);
            (result, Some(kept))
        },
        Err(cause) => (Err(ReceiveError::ChannelError(cause)), None),
    }
}

/// Decides what follows a bounded wait: a result is handed on and a copy of
/// it kept; anything else becomes a `TimeoutError`, and nothing is kept.
pub fn settle_timeout(outcome: Result<MessageResult, RecvTimeoutError>) -> (out: (
    MessageResult,
    Option<MessageResult>,
))
    ensures
        (reply_view(out.0), memo_view(out.1)) == settled_timeout(outcome_view(outcome)),
{
    match outcome {
        Ok(result) => {
            let kept = clone_result(&result);
            (result, Some(kept))
        },
        Err(_) => (Err(ReceiveError::TimeoutError), None),
    }
}

/// The promise of the reply to a message that was sent on a connection.
pub struct MessageFuture {
    inner: Receiver<MessageResult>,
    result: Option<MessageResult>,
    polls: Ghost<nat>,
}

impl View for MessageFuture {
    type V = FutureState;

    closed spec fn view(&self) -> FutureState {
        FutureState { cached: memo_view(self.result), polls: self.polls@ }
    }
}

impl MessageFuture {
    /// A future over the receiving end of the channel on which the reply
    /// will arrive. It keeps nothing yet and has not waited.
    pub fn new(inner: Receiver<MessageResult>) -> (future: MessageFuture)
        ensures
            future@ == FutureState::fresh(),
    {
        MessageFuture { inner, result: None, polls: Ghost(0) }
    }

    /// The result of the request. Where the future keeps one, a copy of it
    /// is returned and the channel is left alone. Otherwise the call waits
    /// on the channel, without limit, once: a result that arrives is kept and
    /// returned; where the channel is closed with nothing in it, the call
    /// returns a `ChannelError` around the cause and keeps nothing.
    pub fn get(&mut self) -> (reply: MessageResult)
        ensures
            old(self)@.get_yields(final(self)@, reply_view(reply)),
    {
        if let Some(ref result) = self.result {
            let copy = clone_result(result);
            proof {
                let idle: Result<ReplyView, RecvError> = Ok(reply_view(copy));
                assert(old(self)@.get(idle) == (self@, reply_view(copy)));
            }
            return copy;
        }
        let outcome = recv_blocking(&self.inner);
        let (reply, kept) = settle(outcome);
        self.result = kept;
        self.polls = Ghost(self.polls@ + 1);
        proof {
            assert(old(self)@.get(outcome_view(outcome)) == (self@, reply_view(reply)));
        }
        reply
    }

    /// The result of the request, waiting no longer than `timeout`. Where the
    /// future keeps one, a copy of it is returned and the channel is left
    /// alone. Otherwise the call waits on the channel once: a result that
    /// arrives in time is kept and returned; in every other case the call
    /// returns `TimeoutError` and keeps nothing.
    pub fn get_timeout(&mut self, timeout: Duration) -> (reply: MessageResult)
        ensures
            old(self)@.get_timeout_yields(final(self)@, reply_view(reply)),
    {
        if let Some(ref result) = self.result {
            let copy = clone_result(result);
            proof {
                let idle: Result<ReplyView, RecvTimeoutError> = Ok(reply_view(copy));
                assert(old(self)@.get_timeout(idle) == (self@, reply_view(copy)));
            }
            return copy;
        }
        let outcome = recv_within(&self.inner, timeout);
        let (reply, kept) = settle_timeout(outcome);
        self.result = kept;
        self.polls = Ghost(self.polls@ + 1);
        proof {
            assert(old(self)@.get_timeout(outcome_view(outcome)) == (self@, reply_view(reply)));
        }
        reply
    }

    /// `get_timeout` where a limit is given, `get` where none is.
    pub fn get_maybe_timeout(&mut self, timeout: Option<Duration>) -> (reply: MessageResult)
        ensures
            timeout is Some ==> old(self)@.get_timeout_yields(final(self)@, reply_view(reply)),
            timeout is None ==> old(self)@.get_yields(final(self)@, reply_view(reply)),
    {
        if let Some(timeout) = timeout {
            self.get_timeout(timeout)
        } else {
            self.get()
        }
    }
}

} // verus!
