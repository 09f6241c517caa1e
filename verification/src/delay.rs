//! The wait before the exit, in whole nanoseconds.
//!
//! A draw from the normal distribution may be negative; the wait is the
//! absolute value of the draw on top of a fixed grace duration. A wait too
//! short to be worth a suspension is reported and not slept.

use vstd::prelude::*;

verus! {

/// The shortest wait, in nanoseconds, that is suspended for: one
/// microsecond.
pub const SUSPEND_THRESHOLD_NANOS: u64 = 1_000;

/// The absolute value of a draw.
pub open spec fn folded(sample: int) -> int {
    if sample < 0 {
        -sample
    } else {
        sample
    }
}

/// The whole wait: the grace duration and the folded draw.
pub open spec fn total_wait(grace: int, sample: int) -> int {
    grace + folded(sample)
}

/// What the fault trigger does before it exits.
#[derive(Debug, Clone, Copy)]
pub struct Wait {
    /// The wait in nanoseconds, which is reported in any case.
    pub nanos: u64,
    /// Whether the wait is long enough to suspend for.
    pub suspend: bool,
}

/// Folds a draw, in nanoseconds, to its absolute value.
pub fn fold_sample(sample_nanos: i64) -> (folded_nanos: u64)
    ensures
        folded_nanos == folded(sample_nanos as int),
{
    if sample_nanos < 0 {
        let below: u64 = (-(sample_nanos + 1)) as u64;
        below + 1
    } else {
        sample_nanos as u64
    }
}

/// Tells whether the wait of `grace_nanos` and a draw of `sample_nanos`
/// fits the machine's range of nanoseconds.
pub fn wait_fits(grace_nanos: u64, sample_nanos: i64) -> (fits: bool)
    ensures
        fits == (total_wait(grace_nanos as int, sample_nanos as int) <= u64::MAX),
{
    fold_sample(sample_nanos) <= u64::MAX - grace_nanos
}

/// The wait of a run: the grace duration and the folded draw, suspended for
/// unless it is shorter than `SUSPEND_THRESHOLD_NANOS`.
pub fn plan_wait(grace_nanos: u64, sample_nanos: i64) -> (wait: Wait)
    requires
        total_wait(grace_nanos as int, sample_nanos as int) <= u64::MAX,
    ensures
        wait.nanos == total_wait(grace_nanos as int, sample_nanos as int),
        wait.suspend == (wait.nanos >= SUSPEND_THRESHOLD_NANOS),
{
    let nanos: u64 = grace_nanos + fold_sample(sample_nanos);
    Wait { nanos, suspend: nanos >= SUSPEND_THRESHOLD_NANOS }
}

/// A folded draw is never negative, and is zero only for the draw zero.
pub proof fn lemma_folded_is_nonnegative(sample: int)
    ensures
        folded(sample) >= 0,
        folded(sample) == 0 <==> sample == 0,
        folded(sample) == folded(-sample),
{
}

/// With a draw of zero the whole wait is the grace duration, and with any
/// draw the wait is never shorter than it.
pub proof fn lemma_wait_is_at_least_grace(grace: int, sample: int)
    ensures
        total_wait(grace, 0) == grace,
        total_wait(grace, sample) >= grace,
{
}

} // verus!
