//! Calibration report types and the per-qubit rules that reports are built by.
use vstd::prelude::*;

use crate::float_bits::F64Bits;
use crate::parameter_store::CalibrationParams;
use crate::pulse::{has_conflicts, schedule_has_conflicts, Pulse};
use crate::stable_order::{has_key, is_stable_sort_of, lemma_stable_insert, sorted_by_key};

verus! {

/// A qubit's index on the chip.
#[derive(Clone, Copy, Debug, PartialEq, Eq, Hash, Structural)]
pub struct QubitId(pub u8);

/// The outcome of calibrating one qubit.
#[derive(Clone, Copy, Debug, PartialEq, Eq, Structural)]
pub struct QubitCalibration {
    pub qubit: QubitId,
    pub params: CalibrationParams,
    /// Whether the qubit's crosstalk template schedule is free of conflicts.
    pub crosstalk_schedule_ok: bool,
}

/// The outcome of calibrating a set of qubits.
#[derive(Clone, Debug)]
pub struct CalibrationReport {
    pub qubits: Vec<QubitCalibration>,
    pub validation_passed: bool,
}

/// The binary64 bit pattern of 5.0 (GHz), the carrier of the crosstalk template.
pub const TEMPLATE_FREQUENCY_GHZ_BITS: u64 = 0x4014_0000_0000_0000;

/// Start of the second template pulse, in nanoseconds.
pub const TEMPLATE_SECOND_START_NS: u64 = 200;

/// The safe template schedule of a qubit: two pulses on the qubit's own channel,
/// at 0 ns and 200 ns, both at 5.0 GHz.
pub open spec fn crosstalk_template(qubit: u8) -> Seq<Pulse> {
    seq![
        Pulse { channel: qubit, start_ns: 0, frequency_ghz: F64Bits(TEMPLATE_FREQUENCY_GHZ_BITS) },
        Pulse {
            channel: qubit,
            start_ns: TEMPLATE_SECOND_START_NS,
            frequency_ghz: F64Bits(TEMPLATE_FREQUENCY_GHZ_BITS),
        },
    ]
}

/// Builds the crosstalk template of `qubit`.
pub fn build_crosstalk_template(qubit: u8) -> (t: Vec<Pulse>)
    ensures
        t@ == crosstalk_template(qubit),
{
    let t = vec![
        Pulse { channel: qubit, start_ns: 0, frequency_ghz: F64Bits(TEMPLATE_FREQUENCY_GHZ_BITS) },
        Pulse {
            channel: qubit,
            start_ns: TEMPLATE_SECOND_START_NS,
            frequency_ghz: F64Bits(TEMPLATE_FREQUENCY_GHZ_BITS),
        },
    ];
    assert(t@ =~= crosstalk_template(qubit));
    t
}

/// The crosstalk template of a qubit is free of conflicts, whatever the qubit.
pub proof fn lemma_crosstalk_template_is_safe(qubit: u8)
    ensures
        !has_conflicts(crosstalk_template(qubit)),
{
}

/// Whether the safe template schedule of `qubit` is free of conflicts (it always is).
pub fn crosstalk_template_check(qubit: u8) -> (ok: bool)
    ensures
        ok == !has_conflicts(crosstalk_template(qubit)),
        ok,
{
    let template = build_crosstalk_template(qubit);
    !schedule_has_conflicts(template.as_slice())
}

/// T1 of the mock transmon model, in nanoseconds.
pub open spec fn mock_t1_ns(qubit: u8) -> u64 {
    (55_000 + 1_500 * qubit) as u64
}

/// T2 of the mock transmon model, in nanoseconds.
pub open spec fn mock_t2_ns(qubit: u8) -> u64 {
    (42_000 + 1_200 * qubit) as u64
}

/// The relaxation and dephasing times of the mock transmon model: T1 = 55 µs plus
/// 1.5 µs per qubit index, T2 = 42 µs plus 1.2 µs per qubit index.
pub fn measure_t1_t2(qubit: u8) -> (t: (u64, u64))
    ensures
        t == (mock_t1_ns(qubit), mock_t2_ns(qubit)),
        t.1 <= t.0,
{
    let q = qubit as u64;
    (55_000 + 1_500 * q, 42_000 + 1_200 * q)
}

/// Whether a calibrated qubit passes the report's checks, given whether its fidelity
/// met the minimum: fidelity met, crosstalk template free of conflicts, and T2 <= T1.
pub open spec fn qubit_passes(q: QubitCalibration, fidelity_met: bool) -> bool {
    fidelity_met && q.crosstalk_schedule_ok && q.params.t2_ns <= q.params.t1_ns
}

/// See [`qubit_passes`].
pub fn qubit_passes_checks(q: &QubitCalibration, fidelity_met: bool) -> (ok: bool)
    ensures
        ok == qubit_passes(*q, fidelity_met),
{
    fidelity_met && q.crosstalk_schedule_ok && q.params.t2_ns <= q.params.t1_ns
}

/// The qubit index of a calibration, as the key reports are ordered by.
pub open spec fn qubit_key() -> spec_fn(QubitCalibration) -> int {
    |q: QubitCalibration| q.qubit.0 as int
}

/// The calibrations of a cycle, without their fidelity verdicts.
pub open spec fn calibrations_of(completed: Seq<(QubitCalibration, bool)>) -> Seq<QubitCalibration> {
    completed.map_values(|c: (QubitCalibration, bool)| c.0)
}

/// A cycle passes when every requested qubit was calibrated and each passes its checks.
pub open spec fn cycle_passes(requested: nat, completed: Seq<(QubitCalibration, bool)>) -> bool {
    &&& completed.len() == requested
    &&& forall|i: int| 0 <= i < completed.len() ==> #[trigger] qubit_passes(completed[i].0, completed[i].1)
}

/// The report of a calibration cycle over `requested` qubits, from the calibrations that
/// completed, each with whether its fidelity met the minimum: the calibrations ordered
/// by qubit index (equal indices keep their order), and the verdict of [`cycle_passes`].
pub fn assemble_cycle_report(requested: usize, completed: Vec<(QubitCalibration, bool)>) -> (report: CalibrationReport)
    ensures
        is_stable_sort_of(report.qubits@, calibrations_of(completed@), qubit_key()),
        report.validation_passed == cycle_passes(requested as nat, completed@),
{
    let n = completed.len();
    let mut all_pass = true;
    let mut i: usize = 0;
    while i < n
        invariant
            n == completed@.len(),
            i <= n,
            all_pass == forall|k: int| 0 <= k < i ==> #[trigger] qubit_passes(completed@[k].0, completed@[k].1),
        decreases n - i,
    {
        let ok = qubit_passes_checks(&completed[i].0, completed[i].1);
        all_pass = all_pass && ok;
        i = i + 1;
    }
    let ghost input = calibrations_of(completed@);
    let mut out: Vec<QubitCalibration> = Vec::new();
    let mut i: usize = 0;
    assert(out@ =~= input.take(0));
    while i < n
        invariant
            n == completed@.len(),
            input == calibrations_of(completed@),
            i <= n,
            is_stable_sort_of(out@, input.take(i as int), qubit_key()),
        decreases n - i,
    {
        let c = completed[i].0;
        assert(c == input[i as int]);
        let mut pos: usize = out.len();
        while pos > 0 && out[pos - 1].qubit.0 > c.qubit.0
            invariant
                pos <= out@.len(),
                sorted_by_key(out@, qubit_key()),
                forall|j: int| pos <= j < out@.len() ==> out@[j].qubit.0 > c.qubit.0,
            decreases pos,
        {
            pos = pos - 1;
        }
        proof {
            assert forall|j: int| 0 <= j < pos implies out@[j].qubit.0 <= c.qubit.0 by {
                assert(qubit_key()(out@[j]) <= qubit_key()(out@[pos - 1]));
            }
            lemma_stable_insert(out@, pos as int, c, qubit_key());
            assert(input.take(i + 1) == input.take(i as int).push(c));
        }
        let ghost before = out@;
        out.insert(pos, c);
        proof {
            let prefix = input.take(i as int);
            assert forall|k: int|
                #[trigger] out@.filter(has_key(qubit_key(), k)) == input.take(i + 1).filter(
                    has_key(qubit_key(), k),
                ) by {
                prefix.lemma_filter_push(c, has_key(qubit_key(), k));
                assert(before.filter(has_key(qubit_key(), k)) == prefix.filter(
                    has_key(qubit_key(), k),
                ));
            }
        }
        i = i + 1;
    }
    assert(input.take(n as int) == input);
    CalibrationReport { qubits: out, validation_passed: n == requested && all_pass }
}

/// A suite passes when each calibrated qubit passes its checks.
pub open spec fn suite_passes(completed: Seq<(QubitCalibration, bool)>) -> bool {
    forall|i: int| 0 <= i < completed.len() ==> #[trigger] qubit_passes(completed[i].0, completed[i].1)
}

/// The report of a full calibration suite, from each qubit's calibration (in the order the
/// suite ran them) with whether its fidelity met the minimum: the calibrations in that
/// order, passing when every qubit passes its checks.
pub fn assemble_suite_report(completed: Vec<(QubitCalibration, bool)>) -> (report: CalibrationReport)
    ensures
        report.qubits@ == calibrations_of(completed@),
        report.validation_passed == suite_passes(completed@),
{
    let n = completed.len();
    let mut qubits: Vec<QubitCalibration> = Vec::new();
    let mut all_pass = true;
    let mut i: usize = 0;
    while i < n
        invariant
            n == completed@.len(),
            i <= n,
            qubits@ == calibrations_of(completed@).take(i as int),
            all_pass == forall|k: int| 0 <= k < i ==> #[trigger] qubit_passes(completed@[k].0, completed@[k].1),
        decreases n - i,
    {
        let (q, fidelity_met) = completed[i];
        all_pass = all_pass && qubit_passes_checks(&q, fidelity_met);
        qubits.push(q);
        assert(calibrations_of(completed@).take(i + 1) =~= calibrations_of(completed@).take(i as int).push(q));
        i = i + 1;
    }
    assert(calibrations_of(completed@).take(n as int) =~= calibrations_of(completed@));
    CalibrationReport { qubits, validation_passed: all_pass }
}

/// A qubit passes exactly when its fidelity met the minimum, its crosstalk template is free
/// of conflicts and its T2 does not exceed its T1; nothing else about it (its index,
/// generation, drive frequency, π-pulse duration) matters.
pub proof fn lemma_qubit_verdict_depends_only_on_checks(
    q: QubitCalibration,
    other: QubitCalibration,
    fidelity_met: bool,
)
    ensures
        qubit_passes(q, fidelity_met) == (fidelity_met && q.crosstalk_schedule_ok && q.params.t2_ns
            <= q.params.t1_ns),
        other.crosstalk_schedule_ok == q.crosstalk_schedule_ok && other.params.t1_ns == q.params.t1_ns
            && other.params.t2_ns == q.params.t2_ns ==> qubit_passes(other, fidelity_met)
            == qubit_passes(q, fidelity_met),
{
}

/// A qubit calibrated with the mock model's T1 and T2, a conflict-free template and a
/// fidelity that met the minimum passes, whatever else its row holds.
pub proof fn lemma_mock_model_qubit_passes(q: QubitCalibration)
    requires
        q.params.t1_ns == 55_000 + 1_500 * q.qubit.0,
        q.params.t2_ns == 42_000 + 1_200 * q.qubit.0,
        q.crosstalk_schedule_ok,
    ensures
        qubit_passes(q, true),
{
}

/// Whether the report's validation passed.
pub fn run_validation_benchmark(report: &CalibrationReport) -> (passed: bool)
    ensures
        passed == report.validation_passed,
{
    report.validation_passed
}

} // verus!
