//! Health monitor: thresholds, drift warnings, and escalation to a human after
//! repeated calibration failure.
use std::collections::HashMap;
use vstd::prelude::*;

use crate::float_bits::F64Bits;
use crate::text::{decimal, decimal_text, joined};

verus! {

broadcast use vstd::std_specs::hash::group_hash_axioms;

/// Limits that calibration results are held to.
#[derive(Clone, Copy, Debug)]
pub struct HealthThresholds {
    /// Shortest acceptable T1, in nanoseconds.
    pub min_t1_ns: u64,
    /// Largest drive-frequency move against the last good value before a drift warning, in GHz.
    pub max_freq_drift_ghz: F64Bits,
    /// Lowest acceptable single-qubit gate fidelity.
    pub min_fidelity: F64Bits,
}

/// 30 µs.
pub const DEFAULT_MIN_T1_NS: u64 = 30_000;

/// The binary64 bit pattern of 0.08 (GHz).
pub const DEFAULT_MAX_FREQ_DRIFT_GHZ_BITS: u64 = 0x3fb4_7ae1_47ae_147b;

/// The binary64 bit pattern of 0.99.
pub const DEFAULT_MIN_FIDELITY_BITS: u64 = 0x3fef_ae14_7ae1_47ae;

impl Default for HealthThresholds {
    /// T1 at least 30 µs, drift at most 0.08 GHz, fidelity at least 0.99.
    fn default() -> (t: Self)
        ensures
            t.min_t1_ns == DEFAULT_MIN_T1_NS,
            t.max_freq_drift_ghz == F64Bits(DEFAULT_MAX_FREQ_DRIFT_GHZ_BITS),
            t.min_fidelity == F64Bits(DEFAULT_MIN_FIDELITY_BITS),
    {
        HealthThresholds {
            min_t1_ns: DEFAULT_MIN_T1_NS,
            max_freq_drift_ghz: F64Bits(DEFAULT_MAX_FREQ_DRIFT_GHZ_BITS),
            min_fidelity: F64Bits(DEFAULT_MIN_FIDELITY_BITS),
        }
    }
}

/// A notification for operators.
#[derive(Clone, Debug)]
pub enum Alert {
    /// The drive frequency moved further than allowed against the last good value.
    DriftWarning { qubit: u8, detail: String },
    /// Automation could not recover: a human must look at this qubit.
    EscalateHuman { qubit: u8, reason: String },
}

/// An alert with its texts taken by their characters.
pub enum AlertView {
    DriftWarning { qubit: u8, detail: Seq<char> },
    EscalateHuman { qubit: u8, reason: Seq<char> },
}

impl View for Alert {
    type V = AlertView;

    open spec fn view(&self) -> AlertView {
        match self {
            Alert::DriftWarning { qubit, detail } => AlertView::DriftWarning {
                qubit: *qubit,
                detail: detail@,
            },
            Alert::EscalateHuman { qubit, reason } => AlertView::EscalateHuman {
                qubit: *qubit,
                reason: reason@,
            },
        }
    }
}

/// The log line of an alert: `[DRIFT] qubit <n>: <detail>` or
/// `[ESCALATE] qubit <n>: <reason>`.
pub open spec fn alert_text(a: AlertView) -> Seq<char> {
    match a {
        AlertView::DriftWarning { qubit, detail } => "[DRIFT] qubit "@ + decimal_text(
            qubit as nat,
        ) + ": "@ + detail,
        AlertView::EscalateHuman { qubit, reason } => "[ESCALATE] qubit "@ + decimal_text(
            qubit as nat,
        ) + ": "@ + reason,
    }
}

impl Alert {
    /// The log line of this alert (see [`alert_text`]).
    pub fn display_text(&self) -> (s: String)
        ensures
            s@ == alert_text(self@),
    {
        match self {
            Alert::DriftWarning { qubit, detail } => {
                let mut s = joined("[DRIFT] qubit ", decimal(*qubit as u64).as_str());
                s.append(": ");
                s.append(detail.as_str());
                s
            },
            Alert::EscalateHuman { qubit, reason } => {
                let mut s = joined("[ESCALATE] qubit ", decimal(*qubit as u64).as_str());
                s.append(": ");
                s.append(reason.as_str());
                s
            },
        }
    }
}

/// Consecutive failures of one qubit that raise an escalation.
pub const ESCALATE_AFTER_FAILURES: u32 = 3;

/// The reason given with an escalation raised by a failure with reason `reason`.
pub open spec fn escalation_reason(reason: Seq<char>) -> Seq<char> {
    decimal_text(ESCALATE_AFTER_FAILURES as nat) + " consecutive calibration failures: "@ + reason
}

/// The failure count of `qubit` in `counts`; 0 where no failure was ever counted.
pub open spec fn count_of(counts: Map<u8, u32>, qubit: u8) -> u32 {
    if counts.contains_key(qubit) {
        counts[qubit]
    } else {
        0
    }
}

/// The failure count after one more failure (saturating at `u32::MAX`).
pub open spec fn bumped(c: u32) -> u32 {
    if c == u32::MAX { u32::MAX } else { (c + 1) as u32 }
}

/// Failure counts and alert log after a failure of `qubit` with `reason`.
pub open spec fn after_failure(
    counts: Map<u8, u32>,
    log: Seq<AlertView>,
    qubit: u8,
    reason: Seq<char>,
) -> (Map<u8, u32>, Seq<AlertView>) {
    let c = bumped(count_of(counts, qubit));
    if c >= ESCALATE_AFTER_FAILURES {
        (
            counts.insert(qubit, 0),
            log.push(AlertView::EscalateHuman { qubit, reason: escalation_reason(reason) }),
        )
    } else {
        (counts.insert(qubit, c), log)
    }
}

/// Tracks consecutive failures per qubit and the alerts raised so far.
#[derive(Debug)]
pub struct HealthMonitor {
    consecutive_failures: HashMap<u8, u32>,
    /// Alerts raised and not yet taken, oldest first.
    pub alerts: Vec<Alert>,
}

impl Default for HealthMonitor {
    /// No failures counted and no alerts.
    fn default() -> (m: Self)
        ensures
            m.failure_counts() == Map::<u8, u32>::empty(),
            m.alert_log() == Seq::<AlertView>::empty(),
    {
        let m = HealthMonitor { consecutive_failures: HashMap::new(), alerts: Vec::new() };
        assert(m.alert_log() =~= Seq::<AlertView>::empty());
        m
    }
}

impl HealthMonitor {
    /// The number of consecutive failures counted for each qubit.
    pub closed spec fn failure_counts(&self) -> Map<u8, u32> {
        self.consecutive_failures@
    }

    /// The alerts raised and not yet taken, by their views.
    pub closed spec fn alert_log(&self) -> Seq<AlertView> {
        self.alerts@.map_values(|a: Alert| a@)
    }

    /// Every counted streak is shorter than an escalation: a streak that reaches
    /// [`ESCALATE_AFTER_FAILURES`] is escalated and starts over.
    pub open spec fn wf(&self) -> bool {
        forall|q: u8| #[trigger] self.failure_counts().contains_key(q)
            ==> self.failure_counts()[q] < ESCALATE_AFTER_FAILURES
    }

    /// A successful calibration of `qubit` ends its failure streak.
    pub fn record_success(&mut self, qubit: u8)
        ensures
            final(self).failure_counts() == old(self).failure_counts().insert(qubit, 0),
            final(self).alert_log() == old(self).alert_log(),
            old(self).wf() ==> final(self).wf(),
    {
        self.consecutive_failures.insert(qubit, 0);
        assert(self.failure_counts()[qubit] == 0);
    }

    /// A failed calibration of `qubit`: its streak grows by one; when the streak reaches
    /// [`ESCALATE_AFTER_FAILURES`], an escalation alert carrying `reason` is raised and the
    /// streak starts over at zero (see [`after_failure`]).
    pub fn record_failure(&mut self, qubit: u8, reason: &str)
        ensures
            (final(self).failure_counts(), final(self).alert_log()) == after_failure(
                old(self).failure_counts(),
                old(self).alert_log(),
                qubit,
                reason@,
            ),
            old(self).wf() ==> final(self).wf(),
    {
        let current: u32 = match self.consecutive_failures.get(&qubit) {
            Some(c) => *c,
            None => 0,
        };
        let c = current.saturating_add(1);
        if c >= ESCALATE_AFTER_FAILURES {
            let mut text = decimal(ESCALATE_AFTER_FAILURES as u64);
            text.append(" consecutive calibration failures: ");
            text.append(reason);
            let ghost before = self.alerts@;
            self.alerts.push(Alert::EscalateHuman { qubit, reason: text });
            assert(self.alert_log() =~= before.map_values(|a: Alert| a@).push(
                AlertView::EscalateHuman { qubit, reason: escalation_reason(reason@) },
            ));
            self.consecutive_failures.insert(qubit, 0);
        } else {
            self.consecutive_failures.insert(qubit, c);
        }
    }

    /// Raises a drift warning for `qubit` with `detail`.
    pub fn warn_drift(&mut self, qubit: u8, detail: &str)
        ensures
            final(self).failure_counts() == old(self).failure_counts(),
            final(self).alert_log() == old(self).alert_log().push(
                AlertView::DriftWarning { qubit, detail: detail@ },
            ),
            old(self).wf() ==> final(self).wf(),
    {
        let ghost before = self.alerts@;
        self.alerts.push(Alert::DriftWarning { qubit, detail: String::from_str(detail) });
        assert(self.alert_log() =~= before.map_values(|a: Alert| a@).push(
            AlertView::DriftWarning { qubit, detail: detail@ },
        ));
    }

    /// Hands out every pending alert, oldest first, and leaves none behind.
    pub fn take_alerts(&mut self) -> (taken: Vec<Alert>)
        ensures
            taken@.map_values(|a: Alert| a@) == old(self).alert_log(),
            final(self).alert_log() == Seq::<AlertView>::empty(),
            final(self).failure_counts() == old(self).failure_counts(),
            old(self).wf() ==> final(self).wf(),
    {
        let mut taken: Vec<Alert> = Vec::new();
        std::mem::swap(&mut taken, &mut self.alerts);
        assert(self.alert_log() =~= Seq::<AlertView>::empty());
        taken
    }
}

/// A failure of one qubit leaves every other qubit's streak as it was.
pub proof fn lemma_failure_is_per_qubit(
    counts: Map<u8, u32>,
    log: Seq<AlertView>,
    qubit: u8,
    other: u8,
    reason: Seq<char>,
)
    requires
        other != qubit,
    ensures
        count_of(after_failure(counts, log, qubit, reason).0, other) == count_of(counts, other),
{
}

/// Starting from an empty streak, the first two consecutive failures of a qubit raise no
/// alert, and the third raises exactly one escalation, carrying the third failure's
/// reason, after which the streak is empty again.
pub proof fn lemma_third_consecutive_failure_escalates(
    counts: Map<u8, u32>,
    log: Seq<AlertView>,
    qubit: u8,
    r1: Seq<char>,
    r2: Seq<char>,
    r3: Seq<char>,
)
    requires
        count_of(counts, qubit) == 0,
    ensures
        ({
            let s1 = after_failure(counts, log, qubit, r1);
            let s2 = after_failure(s1.0, s1.1, qubit, r2);
            let s3 = after_failure(s2.0, s2.1, qubit, r3);
            &&& s1.1 == log && count_of(s1.0, qubit) == 1
            &&& s2.1 == log && count_of(s2.0, qubit) == 2
            &&& s3.1 == log.push(AlertView::EscalateHuman { qubit, reason: escalation_reason(r3) })
            &&& count_of(s3.0, qubit) == 0
        }),
{
}

/// A success between failures starts the streak over: after a success, two failures
/// raise no alert.
pub proof fn lemma_success_resets_streak(
    counts: Map<u8, u32>,
    log: Seq<AlertView>,
    qubit: u8,
    r1: Seq<char>,
    r2: Seq<char>,
)
    ensures
        ({
            let s0 = counts.insert(qubit, 0);
            let s1 = after_failure(s0, log, qubit, r1);
            let s2 = after_failure(s1.0, s1.1, qubit, r2);
            s2.1 == log && count_of(s2.0, qubit) == 2
        }),
{
}

} // verus!
