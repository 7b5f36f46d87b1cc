use vstd::prelude::*;
use crate::SessionResult;

verus! {

/// tokio's `oneshot::error::RecvError`: the reply channel was dropped
/// without an answer. Opaque; only its presence is read.
#[verifier::external_type_specification]
#[verifier::external_body]
pub struct ExRecvError(tokio::sync::oneshot::error::RecvError);

/// tokio's `time::error::Elapsed`: a wait ran out of time. Opaque; only its
/// presence is read.
#[verifier::external_type_specification]
#[verifier::external_body]
pub struct ExElapsed(tokio::time::error::Elapsed);

/// How the wait for the manager's answer ended: out of time, the reply
/// channel dropped unanswered, or an answer.
pub type Answer<R> = Result<
    Result<Option<R>, tokio::sync::oneshot::error::RecvError>,
    tokio::time::error::Elapsed,
>;

/// How queueing a request on the manager's channel ended.
#[derive(Debug, Clone, Copy, PartialEq, Eq, Structural)]
pub enum SendOutcome {
    Sent,
    /// The channel stayed full until the timeout.
    Timeout,
    /// The manager's side of the channel is gone.
    Closed,
}

/// The result of a session request that was only queued.
pub open spec fn sent_spec(sent: SendOutcome) -> Result<(), SessionResult> {
    match sent {
        SendOutcome::Sent => Ok(()),
        SendOutcome::Timeout => Err(SessionResult::Timeout),
        SendOutcome::Closed => Err(SessionResult::Closed),
    }
}

/// The result of a checkout from the manager's answer: the wait ran out of
/// time, no answer at all, a refusal (`None`), or a resource. `refused` is
/// what a refusal means.
pub open spec fn reply_spec<R>(answer: Answer<R>, refused: SessionResult) -> Result<R, SessionResult> {
    match answer {
        Err(_) => Err(SessionResult::Timeout),
        Ok(Err(_)) => Err(SessionResult::NoResponse),
        Ok(Ok(None)) => Err(refused),
        Ok(Ok(Some(resource))) => Ok(resource),
    }
}

/// The result of queueing a request: a checkin is done once queued.
pub fn sent_result(sent: SendOutcome) -> (res: Result<(), SessionResult>)
    ensures
        res == sent_spec(sent),
{
    match sent {
        SendOutcome::Sent => Ok(()),
        SendOutcome::Timeout => Err(SessionResult::Timeout),
        SendOutcome::Closed => Err(SessionResult::Closed),
    }
}

/// The result of a blocking checkout from the manager's answer. The manager
/// refuses blocking checkouts only once it shuts down, so a refusal reads as
/// `Closed`.
pub fn block_reply_result<R>(answer: Answer<R>) -> (res: Result<R, SessionResult>)
    ensures
        res == reply_spec(answer, SessionResult::Closed),
{
    match answer {
        Ok(Ok(Some(resource))) => Ok(resource),
        Ok(Ok(None)) => Err(SessionResult::Closed),
        Ok(Err(_)) => Err(SessionResult::NoResponse),
        Err(_) => Err(SessionResult::Timeout),
    }
}

/// The result of a non-blocking checkout from the manager's answer: a
/// refusal means that no resource could be had, `Full`.
pub fn nonblock_reply_result<R>(answer: Answer<R>) -> (res: Result<R, SessionResult>)
    ensures
        res == reply_spec(answer, SessionResult::Full),
{
    match answer {
        Ok(Ok(Some(resource))) => Ok(resource),
        Ok(Ok(None)) => Err(SessionResult::Full),
        Ok(Err(_)) => Err(SessionResult::NoResponse),
        Err(_) => Err(SessionResult::Timeout),
    }
}

/// Whether a resource still has to tell the manager that it is gone: only
/// once, so not when a recycle signal was already sent for it.
pub fn must_report(recycled: bool) -> (report: bool)
    ensures
        report == !recycled,
{
    !recycled
}

/// The resource's recycled flag after an attempt to send its recycle signal:
/// set once a signal was queued.
pub fn recycled_after_report(recycled: bool, sent: SendOutcome) -> (after: bool)
    ensures
        after == (recycled || sent == SendOutcome::Sent),
{
    match sent {
        SendOutcome::Sent => true,
        _ => recycled,
    }
}

} // verus!
