//! The flush scheduler: when a batch is due, and how long it has to wait.

use crate::time::time_between;
use vstd::prelude::*;

verus! {

/// The time for which the pipeline is suspended before it looks at the
/// clock again: half a second, in nanoseconds.
pub const WAIT_STEP: u128 = 500_000_000;

/// Whether a flush is due: it is not while the buffer holds fewer entries
/// than a batch and less than a period has passed since the last flush.
pub open spec fn flush_due(buffer_size: nat, batch_size: nat, elapsed: nat, period: nat) -> bool {
    !(buffer_size < batch_size && elapsed < period)
}

/// Whether a flush that is due may go out: a full period has passed since
/// the last one.
pub open spec fn floor_reached(elapsed: nat, period: nat) -> bool {
    elapsed >= period
}

/// Decides whether a flush is due.
pub fn is_flush_due(buffer_size: usize, batch_size: usize, elapsed: u128, period: u128) -> (due:
    bool)
    ensures
        due == flush_due(buffer_size as nat, batch_size as nat, elapsed as nat, period as nat),
{
    !(buffer_size < batch_size && elapsed < period)
}

/// Decides whether a flush that is due may go out.
pub fn is_floor_reached(elapsed: u128, period: u128) -> (reached: bool)
    ensures
        reached == floor_reached(elapsed as nat, period as nat),
{
    elapsed >= period
}

/// Flushes lie a period apart. A flush that may go out at one reading of the
/// clock, and arrives at that reading or a later one, arrives at least a
/// period after the last flush.
pub proof fn law_flushes_lie_a_period_apart(
    last_flush: u128,
    decided_at: u128,
    delivered_at: u128,
    period: u128,
)
    requires
        floor_reached(time_between(last_flush, decided_at) as nat, period as nat),
        delivered_at >= decided_at,
    ensures
        time_between(last_flush, delivered_at) >= period,
{
}

} // verus!
