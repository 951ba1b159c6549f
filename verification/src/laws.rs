//! What holds of a future over any run of calls.
//!
//! The laws speak of [`FutureState`], in whose terms the methods of
//! [`MessageFuture`](crate::future::MessageFuture) are specified.
use vstd::prelude::*;
use std::sync::mpsc::RecvError;
use std::sync::mpsc::RecvTimeoutError;
use crate::endpoint::ReplyView;
use crate::envelope::MessageView;
use crate::error::ReceiveError;
use crate::future::FutureState;
use crate::future::Wait;

verus! {

/// A future that keeps a result does not change any more: whatever calls
/// follow, and whatever the channel would have had for them, each returns
/// that result, and the channel is not waited on again.
pub proof fn lemma_kept_result_is_final(future: FutureState, reply: ReplyView, waits: Seq<Wait>)
    requires
        future.cached == Some(reply),
    ensures
        future.replay(waits).0 == future,
        future.replay(waits).1.len() == waits.len(),
        forall|i: int| 0 <= i < waits.len() ==> future.replay(waits).1[i] == reply,
    decreases waits.len(),
{
    if waits.len() > 0 {
        lemma_kept_result_is_final(future, reply, waits.drop_last());
    }
}

/// Single delivery. Where the first wait of a future obtains `reply`, `get`
/// returns it, and so does every call that follows; the channel has then
/// been waited on once more than before, however many calls were made.
pub proof fn lemma_single_delivery(future: FutureState, reply: ReplyView, waits: Seq<Wait>)
    requires
        future.cached is None,
    ensures
        future.get(Ok(reply)).1 == reply,
        future.get(Ok(reply)).0.cached == Some(reply),
        future.get(Ok(reply)).0.replay(waits).0 == future.get(Ok(reply)).0,
        future.get(Ok(reply)).0.replay(waits).0.polls == future.polls + 1,
        future.get(Ok(reply)).0.replay(waits).1.len() == waits.len(),
        forall|i: int|
            0 <= i < waits.len() ==> future.get(Ok(reply)).0.replay(waits).1[i] == reply,
{
    lemma_kept_result_is_final(future.get(Ok(reply)).0, reply, waits);
}

/// A result in time. Where the bounded wait of a future obtains `reply`,
/// `get_timeout` returns it and keeps it, and every call that follows
/// returns it without another wait.
pub proof fn lemma_timeout_success(future: FutureState, reply: ReplyView, waits: Seq<Wait>)
    requires
        future.cached is None,
    ensures
        future.get_timeout(Ok(reply)).1 == reply,
        future.get_timeout(Ok(reply)).0.cached == Some(reply),
        future.get_timeout(Ok(reply)).0.replay(waits).0 == future.get_timeout(Ok(reply)).0,
        future.get_timeout(Ok(reply)).0.replay(waits).0.polls == future.polls + 1,
        future.get_timeout(Ok(reply)).0.replay(waits).1.len() == waits.len(),
        forall|i: int|
            0 <= i < waits.len() ==> future.get_timeout(Ok(reply)).0.replay(waits).1[i] == reply,
{
    lemma_kept_result_is_final(future.get_timeout(Ok(reply)).0, reply, waits);
}

/// No result in time. Where the bounded wait of a future obtains nothing,
/// `get_timeout` returns `TimeoutError` and keeps nothing, so the next call
/// waits again: if `reply` has arrived by then, `get` and `get_timeout` both
/// return it and keep it.
pub proof fn lemma_timeout_expiry(future: FutureState, ended: RecvTimeoutError, reply: ReplyView)
    requires
        future.cached is None,
    ensures
        future.get_timeout(Err(ended)).1 == Err::<MessageView, ReceiveError>(ReceiveError::TimeoutError),
        future.get_timeout(Err(ended)).0 == future.polled(None),
        future.get_timeout(Err(ended)).0.get(Ok(reply)) == (
            future.polled(None).polled(Some(reply)),
            reply,
        ),
        future.get_timeout(Err(ended)).0.get_timeout(Ok(reply)) == (
            future.polled(None).polled(Some(reply)),
            reply,
        ),
{
}

/// A closed channel. Where the channel is closed with nothing in it, `get`
/// returns a `ChannelError` around the cause, while `get_timeout`, however
/// its wait ended, returns `TimeoutError`: the two never agree here. Neither
/// keeps anything.
pub proof fn lemma_closed_channel(future: FutureState, closed: RecvError, ended: RecvTimeoutError)
    requires
        future.cached is None,
    ensures
        future.get(Err(closed)) == (
            future.polled(None),
            Err::<MessageView, ReceiveError>(ReceiveError::ChannelError(closed)),
        ),
        future.get_timeout(Err(ended)) == (
            future.polled(None),
            Err::<MessageView, ReceiveError>(ReceiveError::TimeoutError),
        ),
        future.get(Err(closed)).1 != future.get_timeout(Err(ended)).1,
{
}

/// An optional limit. A call with a limit is `get_timeout`, a call without
/// one is `get`: as one step of a run, each leaves and returns what the call
/// it stands for does.
pub proof fn lemma_optional_limit(
    future: FutureState,
    unbounded: Result<ReplyView, RecvError>,
    bounded: Result<ReplyView, RecvTimeoutError>,
)
    ensures
        future.step(Wait::Unbounded(unbounded)) == future.get(unbounded),
        future.step(Wait::Bounded(bounded)) == future.get_timeout(bounded),
        future.get_yields(future.get(unbounded).0, future.get(unbounded).1),
        future.get_timeout_yields(future.get_timeout(bounded).0, future.get_timeout(bounded).1),
{
}

} // verus!
