//! When to recalibrate: pure policy over monotonic time stamps.
use vstd::prelude::*;

verus! {

/// How often to refresh calibration when the machine is otherwise healthy.
///
/// Time is measured in nanoseconds of a monotonic clock.
#[derive(Clone, Copy, Debug)]
pub struct CalibrationPolicy {
    /// Length of the periodic interval in nanoseconds (24 h in production, less in tests).
    pub periodic_interval_ns: u64,
}

/// Why a recalibration is due.
#[derive(Clone, Copy, Debug, PartialEq, Eq, Structural)]
pub enum RecalibrationCause {
    Periodic,
    ChipSwap,
}

/// Time elapsed from `earlier` to `later` on a monotonic clock, zero when `earlier`
/// lies after `later`.
pub open spec fn elapsed_ns(later: u64, earlier: u64) -> int {
    if later >= earlier {
        later - earlier
    } else {
        0
    }
}

/// Why calibration should run at `now_ns`, if at all.
pub open spec fn due_cause(
    last_success_ns: Option<u64>,
    now_ns: u64,
    pending_chip_swap: bool,
    policy: CalibrationPolicy,
) -> Option<RecalibrationCause> {
    if pending_chip_swap {
        Some(RecalibrationCause::ChipSwap)
    } else {
        match last_success_ns {
            None => Some(RecalibrationCause::Periodic),
            Some(last) => if elapsed_ns(now_ns, last) >= policy.periodic_interval_ns {
                Some(RecalibrationCause::Periodic)
            } else {
                None
            },
        }
    }
}

/// Returns why calibration should run now, if at all: a pending chip swap first,
/// then a cold start (never calibrated), then an elapsed periodic interval.
pub fn calibration_due(
    last_success_ns: Option<u64>,
    now_ns: u64,
    pending_chip_swap: bool,
    policy: &CalibrationPolicy,
) -> (cause: Option<RecalibrationCause>)
    ensures
        cause == due_cause(last_success_ns, now_ns, pending_chip_swap, *policy),
{
    if pending_chip_swap {
        return Some(RecalibrationCause::ChipSwap);
    }
    match last_success_ns {
        None => Some(RecalibrationCause::Periodic),
        Some(last) => {
            let elapsed: u64 = now_ns.saturating_sub(last);
            if elapsed >= policy.periodic_interval_ns {
                Some(RecalibrationCause::Periodic)
            } else {
                None
            }
        },
    }
}

/// Without a chip swap, a qubit set calibrated at `last` is due at `now` exactly when at
/// least the policy's interval has passed since `last` (no time has passed when `last`
/// lies after `now`), whatever the interval; a machine never calibrated is always due.
pub proof fn lemma_periodic_due_iff_interval_elapsed(last: u64, now: u64, policy: CalibrationPolicy)
    ensures
        now >= last ==> (due_cause(Some(last), now, false, policy) == if now - last >= policy.periodic_interval_ns {
            Some(RecalibrationCause::Periodic)
        } else {
            None
        }),
        now < last ==> (due_cause(Some(last), now, false, policy) == if policy.periodic_interval_ns == 0 {
            Some(RecalibrationCause::Periodic)
        } else {
            None
        }),
        now >= last && now - last < policy.periodic_interval_ns ==> due_cause(Some(last), now, false, policy) is None,
        due_cause(None, now, false, policy) == Some(RecalibrationCause::Periodic),
{
}

/// A pending chip swap makes recalibration due, for that cause, whatever the history
/// and the time.
pub proof fn lemma_chip_swap_takes_priority(
    last_success_ns: Option<u64>,
    now_ns: u64,
    policy: CalibrationPolicy,
)
    ensures
        due_cause(last_success_ns, now_ns, true, policy) == Some(RecalibrationCause::ChipSwap),
{
}

/// Once a periodic recalibration is due, it stays due as time goes on, until a new
/// calibration is recorded.
pub proof fn lemma_due_persists(
    last_success_ns: Option<u64>,
    now_ns: u64,
    later_ns: u64,
    policy: CalibrationPolicy,
)
    requires
        now_ns <= later_ns,
        due_cause(last_success_ns, now_ns, false, policy) is Some,
    ensures
        due_cause(last_success_ns, later_ns, false, policy) == Some(RecalibrationCause::Periodic),
{
}

} // verus!
