//! The resilient sender: what follows an attempt to send a batch.

use crate::client::Error;
use crate::status::Code;
use vstd::prelude::*;

verus! {

/// The time between two attempts to send one batch: half a second, in
/// nanoseconds.
pub const RETRY_DELAY: u128 = 500_000_000;

/// What follows an attempt to send a batch.
#[derive(Debug, Clone, Copy, PartialEq, Eq, Structural)]
pub enum Verdict {
    /// The batch has arrived.
    Delivered,
    /// The batch is to be sent again after the retry delay.
    Retry,
    /// The batch is given up.
    Failed,
}

/// Whether a call that failed with `error` may succeed when it is made
/// again: the service itself reported an internal or an unknown error.
pub open spec fn is_transient(error: Error) -> bool {
    error matches Error::Grpc(status) && status.code.is_transient()
}

/// What follows the attempt number `attempts` to send a batch, counted from
/// one, that ended in `result`, where at most `retries` attempts are made.
pub open spec fn verdict_of(result: Result<(), Error>, attempts: nat, retries: nat) -> Verdict {
    match result {
        Ok(_) => Verdict::Delivered,
        Err(error) => if is_transient(error) && attempts < retries {
            Verdict::Retry
        } else {
            Verdict::Failed
        },
    }
}

/// Decides whether a failed call may succeed when it is made again.
pub fn transient(error: &Error) -> (retriable: bool)
    ensures
        retriable == is_transient(*error),
{
    match error {
        Error::Grpc(status) => match status.code {
            Code::Internal => true,
            Code::Unknown => true,
            _ => false,
        },
        _ => false,
    }
}

/// Decides what follows the attempt number `attempts` to send a batch.
pub fn judge(result: &Result<(), Error>, attempts: usize, retries: usize) -> (verdict: Verdict)
    ensures
        verdict == verdict_of(*result, attempts as nat, retries as nat),
{
    match result {
        Ok(_) => Verdict::Delivered,
        Err(error) => if transient(error) && attempts < retries {
            Verdict::Retry
        } else {
            Verdict::Failed
        },
    }
}

/// The number of attempts that a batch gets when every attempt fails with a
/// transient error: as many as are allowed, and one where none is.
pub open spec fn attempts_made(retries: nat) -> nat {
    if retries == 0 {
        1
    } else {
        retries
    }
}

/// A batch whose attempts all fail with a transient error is given up at
/// the last attempt that is allowed, and retried at every one before it.
pub proof fn law_retries_are_bounded(error: Error, attempts: nat, retries: nat)
    requires
        is_transient(error),
        1 <= attempts,
    ensures
        attempts < attempts_made(retries) ==> verdict_of(Err(error), attempts, retries)
            == Verdict::Retry,
        attempts >= attempts_made(retries) ==> verdict_of(Err(error), attempts, retries)
            == Verdict::Failed,
{
}

/// A failure that is not transient is never retried.
pub proof fn law_permanent_failures_end_at_once(error: Error, attempts: nat, retries: nat)
    requires
        !is_transient(error),
    ensures
        verdict_of(Err(error), attempts, retries) == Verdict::Failed,
{
}

} // verus!
