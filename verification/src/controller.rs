//! The synchronous calibration controller: periodic policy plus chip-swap requests.
use vstd::prelude::*;

use crate::calibration::CalibrationReport;
use crate::schedule::{calibration_due, due_cause, CalibrationPolicy, RecalibrationCause};

verus! {

/// Decides when automated calibration should run (periodic, or after a chip swap),
/// and runs it when it is due.
#[derive(Debug)]
pub struct CalibrationController {
    policy: CalibrationPolicy,
    last_full_calibration: Option<u64>,
    pending_chip_swap_recal: bool,
}

impl CalibrationController {
    /// The policy the controller applies.
    pub closed spec fn policy(&self) -> CalibrationPolicy {
        self.policy
    }

    /// When the last full calibration ran, in nanoseconds of the monotonic clock.
    pub closed spec fn last_full_calibration(&self) -> Option<u64> {
        self.last_full_calibration
    }

    /// Whether a chip swap was reported and no calibration has run since.
    pub closed spec fn pending_chip_swap(&self) -> bool {
        self.pending_chip_swap_recal
    }

    /// Why calibration is due at `now_ns`, if it is.
    pub open spec fn cause_at(&self, now_ns: u64) -> Option<RecalibrationCause> {
        due_cause(self.last_full_calibration(), now_ns, self.pending_chip_swap(), self.policy())
    }

    /// A controller that has never calibrated and knows of no chip swap.
    pub fn new(policy: CalibrationPolicy) -> (c: Self)
        ensures
            c.policy() == policy,
            c.last_full_calibration() == None::<u64>,
            !c.pending_chip_swap(),
    {
        CalibrationController { policy, last_full_calibration: None, pending_chip_swap_recal: false }
    }

    /// To be called after a physical chip replacement: a full calibration is due before
    /// results can be trusted again.
    pub fn notify_chip_swap(&mut self)
        ensures
            final(self).pending_chip_swap(),
            final(self).policy() == old(self).policy(),
            final(self).last_full_calibration() == old(self).last_full_calibration(),
    {
        self.pending_chip_swap_recal = true;
    }

    /// Why calibration should run at `now_ns`, if at all.
    pub fn recalibration_cause(&self, now_ns: u64) -> (cause: Option<RecalibrationCause>)
        ensures
            cause == self.cause_at(now_ns),
    {
        calibration_due(self.last_full_calibration, now_ns, self.pending_chip_swap_recal, &self.policy)
    }

    /// When calibration is due at `now_ns`, runs the full suite once (by calling
    /// `run_suite`), records `now_ns` as the last full calibration, clears a pending chip
    /// swap and returns the report; otherwise does nothing and returns `None`.
    pub fn run_full_calibration_if_due<F: FnOnce() -> CalibrationReport>(
        &mut self,
        now_ns: u64,
        run_suite: F,
    ) -> (report: Option<CalibrationReport>)
        requires
            call_requires(run_suite, ()),
        ensures
            old(self).cause_at(now_ns) is None ==> {
                &&& report is None
                &&& *final(self) == *old(self)
            },
            old(self).cause_at(now_ns) is Some ==> {
                &&& report matches Some(r) && call_ensures(run_suite, (), r)
                &&& final(self).policy() == old(self).policy()
                &&& final(self).last_full_calibration() == Some(now_ns)
                &&& !final(self).pending_chip_swap()
            },
    {
        if self.recalibration_cause(now_ns).is_none() {
            return None;
        }
        let report = run_suite();
        self.last_full_calibration = Some(now_ns);
        self.pending_chip_swap_recal = false;
        Some(report)
    }
}

/// Right after a full calibration at `now_ns`, nothing is due at that instant (with a
/// periodic interval longer than zero).
pub proof fn lemma_nothing_due_after_calibration(c: CalibrationController, now_ns: u64)
    requires
        c.last_full_calibration() == Some(now_ns),
        !c.pending_chip_swap(),
        c.policy().periodic_interval_ns > 0,
    ensures
        c.cause_at(now_ns) is None,
{
}

/// After a chip swap is reported, a calibration is due for that cause at any time.
pub proof fn lemma_chip_swap_forces_calibration(c: CalibrationController, now_ns: u64)
    requires
        c.pending_chip_swap(),
    ensures
        c.cause_at(now_ns) == Some(RecalibrationCause::ChipSwap),
{
}

} // verus!
