//! The calibration of one qubit as a state machine.
//!
//! The run alternates work the library cannot do itself (hardware experiments,
//! floating-point comparisons, the shared store and health monitor behind their locks)
//! with decisions. [`QubitCalibrationRun::step`] takes the outcome of the last action
//! and returns the next action; the driver performs it and reports back, until the run
//! finishes with [`CalibrationAction::Finish`].
use vstd::prelude::*;

use crate::calibration::{
    crosstalk_template, crosstalk_template_check, QubitCalibration, QubitId,
};
use crate::float_bits::F64Bits;
use crate::hardware::HardwareError;
use crate::health::HealthThresholds;
use crate::parameter_store::CalibrationParams;
use crate::pulse::has_conflicts;

verus! {

/// Why a calibration step failed.
#[derive(Clone, Copy, Debug)]
pub enum CalibrationError {
    Hardware(HardwareError),
    Validation(&'static str),
}

impl From<HardwareError> for CalibrationError {
    fn from(e: HardwareError) -> (r: Self) {
        CalibrationError::Hardware(e)
    }
}

impl vstd::std_specs::convert::FromSpecImpl<HardwareError> for CalibrationError {
    open spec fn obeys_from_spec() -> bool {
        true
    }

    open spec fn from_spec(e: HardwareError) -> CalibrationError {
        CalibrationError::Hardware(e)
    }
}

/// Whether the crosstalk template of `qubit` is free of conflicts (it always is).
pub fn crosstalk_template_ok(qubit: u8) -> (ok: bool)
    ensures
        ok == !has_conflicts(crosstalk_template(qubit)),
        ok,
{
    crosstalk_template_check(qubit)
}

/// Stored T1/T2 that an incremental run may reuse instead of measuring again: T1 at
/// least the minimum and T2 at most T1.
pub open spec fn reusable_relaxation(stored: Option<CalibrationParams>, min_t1_ns: u64) -> bool {
    stored matches Some(p) && p.t1_ns >= min_t1_ns && p.t2_ns <= p.t1_ns
}

/// Failure reason recorded when the measured T2 exceeds T1.
pub open spec fn t2_above_t1_reason() -> Seq<char> {
    "T2 > T1 (unphysical for this mock)"@
}

/// Failure reason recorded when the crosstalk template has a conflict.
pub open spec fn crosstalk_reason() -> Seq<char> {
    "crosstalk template conflict"@
}

/// Where a run stands: which outcome it waits for.
#[derive(Clone, Copy, Debug)]
pub enum RunPhase {
    /// Waits for the stored parameters before the sweep.
    LoadingPrevious,
    /// Waits for the frequency sweep.
    Sweeping,
    /// Waits for the drift verdict against the stored drive frequency.
    ComparingDrift,
    /// Waits for the drift warning to be raised.
    WarningDrift,
    /// Waits for the stored parameters, to reuse their T1/T2 (incremental runs).
    LoadingStoredRelaxation,
    MeasuringT1,
    MeasuringT2,
    TuningGate,
    /// Waits for the fidelity verdict against the minimum.
    CheckingFidelity,
    /// Waits for the failure to be recorded; then fails with this message.
    RecordingFailure(&'static str),
    /// Waits for the commit to the store.
    Committing,
    /// Waits for the committed row, read back from the store.
    LoadingSaved,
    /// Waits for the success to be recorded; then succeeds with these parameters.
    RecordingSuccess(CalibrationParams),
    /// The run is over.
    Finished,
}

/// The outcome of the last action, reported by the driver.
#[derive(Debug)]
pub enum CalibrationEvent {
    /// The store's row for the qubit (after `LoadParams`).
    Loaded(Option<CalibrationParams>),
    /// The best drive frequency found by the sweep, or why it failed.
    Swept(Result<F64Bits, CalibrationError>),
    /// A drift warning text when the drive moved further than the threshold, else `None`.
    DriftCompared(Option<String>),
    MeasuredT1(Result<u64, CalibrationError>),
    MeasuredT2(Result<u64, CalibrationError>),
    /// The π-pulse duration and fidelity, or why the π-pulse calibration failed.
    GateTuned(Result<(u64, F64Bits), CalibrationError>),
    /// A failure reason when the fidelity is below the minimum, else `None`.
    FidelityChecked(Option<String>),
    /// The action was carried out.
    Acknowledged,
}

/// A [`CalibrationEvent`] with its texts taken by their characters.
pub enum EventView {
    Loaded(Option<CalibrationParams>),
    Swept(Result<F64Bits, CalibrationError>),
    DriftCompared(Option<Seq<char>>),
    MeasuredT1(Result<u64, CalibrationError>),
    MeasuredT2(Result<u64, CalibrationError>),
    GateTuned(Result<(u64, F64Bits), CalibrationError>),
    FidelityChecked(Option<Seq<char>>),
    Acknowledged,
}

impl View for CalibrationEvent {
    type V = EventView;

    open spec fn view(&self) -> EventView {
        match self {
            CalibrationEvent::Loaded(p) => EventView::Loaded(*p),
            CalibrationEvent::Swept(r) => EventView::Swept(*r),
            CalibrationEvent::DriftCompared(d) => EventView::DriftCompared(
                match d {
                    Some(s) => Some(s@),
                    None => None,
                },
            ),
            CalibrationEvent::MeasuredT1(r) => EventView::MeasuredT1(*r),
            CalibrationEvent::MeasuredT2(r) => EventView::MeasuredT2(*r),
            CalibrationEvent::GateTuned(r) => EventView::GateTuned(*r),
            CalibrationEvent::FidelityChecked(d) => EventView::FidelityChecked(
                match d {
                    Some(s) => Some(s@),
                    None => None,
                },
            ),
            CalibrationEvent::Acknowledged => EventView::Acknowledged,
        }
    }
}

/// What the driver must do next.
#[derive(Debug)]
pub enum CalibrationAction {
    /// Read the store's row for the qubit; report `Loaded`.
    LoadParams,
    /// Run the frequency sweep; report `Swept`.
    SweepFrequency,
    /// Decide whether the drive moved from `previous` to `current` by more than
    /// `threshold` (all GHz); report `DriftCompared`, with a warning text exactly then.
    CompareDrift { previous: F64Bits, current: F64Bits, threshold: F64Bits },
    /// Raise a drift warning with this text; report `Acknowledged`.
    WarnDrift(String),
    /// Measure T1; report `MeasuredT1`.
    MeasureT1,
    /// Measure T2; report `MeasuredT2`.
    MeasureT2,
    /// Tune the π pulse; report `GateTuned`.
    TuneGate,
    /// Decide whether `fidelity` lies below `minimum`; report `FidelityChecked`, with a
    /// failure reason exactly then.
    CheckFidelity { fidelity: F64Bits, minimum: F64Bits },
    /// Record a failed calibration with this reason; report `Acknowledged`.
    RecordFailure(String),
    /// Commit these parameters as a success to the store; report `Acknowledged`.
    Commit(CalibrationParams),
    /// Record a successful calibration; report `Acknowledged`.
    RecordSuccess,
    /// The run is over with this result.
    Finish(Result<QubitCalibration, CalibrationError>),
}

/// A [`CalibrationAction`] with its texts taken by their characters.
pub enum ActionView {
    LoadParams,
    SweepFrequency,
    CompareDrift { previous: F64Bits, current: F64Bits, threshold: F64Bits },
    WarnDrift(Seq<char>),
    MeasureT1,
    MeasureT2,
    TuneGate,
    CheckFidelity { fidelity: F64Bits, minimum: F64Bits },
    RecordFailure(Seq<char>),
    Commit(CalibrationParams),
    RecordSuccess,
    Finish(Result<QubitCalibration, CalibrationError>),
}

impl View for CalibrationAction {
    type V = ActionView;

    open spec fn view(&self) -> ActionView {
        match self {
            CalibrationAction::LoadParams => ActionView::LoadParams,
            CalibrationAction::SweepFrequency => ActionView::SweepFrequency,
            CalibrationAction::CompareDrift { previous, current, threshold } => ActionView::CompareDrift {
                previous: *previous,
                current: *current,
                threshold: *threshold,
            },
            CalibrationAction::WarnDrift(s) => ActionView::WarnDrift(s@),
            CalibrationAction::MeasureT1 => ActionView::MeasureT1,
            CalibrationAction::MeasureT2 => ActionView::MeasureT2,
            CalibrationAction::TuneGate => ActionView::TuneGate,
            CalibrationAction::CheckFidelity { fidelity, minimum } => ActionView::CheckFidelity {
                fidelity: *fidelity,
                minimum: *minimum,
            },
            CalibrationAction::RecordFailure(s) => ActionView::RecordFailure(s@),
            CalibrationAction::Commit(p) => ActionView::Commit(*p),
            CalibrationAction::RecordSuccess => ActionView::RecordSuccess,
            CalibrationAction::Finish(r) => ActionView::Finish(*r),
        }
    }
}

/// The state of one qubit's calibration run.
#[derive(Clone, Copy, Debug)]
pub struct QubitCalibrationRun {
    pub qubit: u8,
    pub thresholds: HealthThresholds,
    /// Whether stored T1/T2 may be reused when they are still in range.
    pub incremental: bool,
    pub phase: RunPhase,
    /// The store's row before this run, once loaded.
    pub previous: Option<CalibrationParams>,
    pub drive_frequency_ghz: F64Bits,
    pub t1_ns: u64,
    pub t2_ns: u64,
    pub pi_pulse_duration_ns: u64,
    pub fidelity: F64Bits,
}

/// Whether a run in `phase` can take `event`.
pub open spec fn accepts(phase: RunPhase, event: EventView) -> bool {
    match phase {
        RunPhase::LoadingPrevious => event is Loaded,
        RunPhase::Sweeping => event is Swept,
        RunPhase::ComparingDrift => event is DriftCompared,
        RunPhase::WarningDrift => event is Acknowledged,
        RunPhase::LoadingStoredRelaxation => event is Loaded,
        RunPhase::MeasuringT1 => event is MeasuredT1,
        RunPhase::MeasuringT2 => event is MeasuredT2,
        RunPhase::TuningGate => event is GateTuned,
        RunPhase::CheckingFidelity => event is FidelityChecked,
        RunPhase::RecordingFailure(_) => event is Acknowledged,
        RunPhase::Committing => event is Acknowledged,
        RunPhase::LoadingSaved => event matches EventView::Loaded(Some(_)),
        RunPhase::RecordingSuccess(_) => event is Acknowledged,
        RunPhase::Finished => false,
    }
}

/// The step after the drift check: load the stored row to reuse its T1/T2 when the run
/// is incremental, else measure T1.
pub open spec fn after_drift(run: QubitCalibrationRun) -> (QubitCalibrationRun, ActionView) {
    if run.incremental {
        (QubitCalibrationRun { phase: RunPhase::LoadingStoredRelaxation, ..run }, ActionView::LoadParams)
    } else {
        (QubitCalibrationRun { phase: RunPhase::MeasuringT1, ..run }, ActionView::MeasureT1)
    }
}

/// The parameters a run commits: what it measured, generation 0 (the store sets it).
pub open spec fn measured_params(run: QubitCalibrationRun) -> CalibrationParams {
    CalibrationParams {
        drive_frequency_ghz: run.drive_frequency_ghz,
        t1_ns: run.t1_ns,
        t2_ns: run.t2_ns,
        pi_pulse_duration_ns: run.pi_pulse_duration_ns,
        single_qubit_fidelity: run.fidelity,
        generation: 0,
    }
}

/// The step after the fidelity passed: fail on a crosstalk conflict, else commit.
pub open spec fn after_fidelity(run: QubitCalibrationRun) -> (QubitCalibrationRun, ActionView) {
    if has_conflicts(crosstalk_template(run.qubit)) {
        (
            QubitCalibrationRun { phase: RunPhase::RecordingFailure("crosstalk"), ..run },
            ActionView::RecordFailure(crosstalk_reason()),
        )
    } else {
        (QubitCalibrationRun { phase: RunPhase::Committing, ..run }, ActionView::Commit(measured_params(run)))
    }
}

/// The transition of a run on an event it accepts: the next state and the next action.
pub open spec fn next(run: QubitCalibrationRun, event: EventView) -> (QubitCalibrationRun, ActionView) {
    let finished = QubitCalibrationRun { phase: RunPhase::Finished, ..run };
    match (run.phase, event) {
        (RunPhase::LoadingPrevious, EventView::Loaded(p)) => (
            QubitCalibrationRun { phase: RunPhase::Sweeping, previous: p, ..run },
            ActionView::SweepFrequency,
        ),
        (RunPhase::Sweeping, EventView::Swept(Err(e))) => (finished, ActionView::Finish(Err(e))),
        (RunPhase::Sweeping, EventView::Swept(Ok(drive))) => {
            let run = QubitCalibrationRun { drive_frequency_ghz: drive, ..run };
            match run.previous {
                Some(p) => (
                    QubitCalibrationRun { phase: RunPhase::ComparingDrift, ..run },
                    ActionView::CompareDrift {
                        previous: p.drive_frequency_ghz,
                        current: drive,
                        threshold: run.thresholds.max_freq_drift_ghz,
                    },
                ),
                None => after_drift(run),
            }
        },
        (RunPhase::ComparingDrift, EventView::DriftCompared(Some(detail))) => (
            QubitCalibrationRun { phase: RunPhase::WarningDrift, ..run },
            ActionView::WarnDrift(detail),
        ),
        (RunPhase::ComparingDrift, EventView::DriftCompared(None)) => after_drift(run),
        (RunPhase::WarningDrift, EventView::Acknowledged) => after_drift(run),
        (RunPhase::LoadingStoredRelaxation, EventView::Loaded(stored)) => {
            if reusable_relaxation(stored, run.thresholds.min_t1_ns) {
                let p = stored.unwrap();
                (
                    QubitCalibrationRun { phase: RunPhase::TuningGate, t1_ns: p.t1_ns, t2_ns: p.t2_ns, ..run },
                    ActionView::TuneGate,
                )
            } else {
                (QubitCalibrationRun { phase: RunPhase::MeasuringT1, ..run }, ActionView::MeasureT1)
            }
        },
        (RunPhase::MeasuringT1, EventView::MeasuredT1(Err(e))) => (finished, ActionView::Finish(Err(e))),
        (RunPhase::MeasuringT1, EventView::MeasuredT1(Ok(t1))) => (
            QubitCalibrationRun { phase: RunPhase::MeasuringT2, t1_ns: t1, ..run },
            ActionView::MeasureT2,
        ),
        (RunPhase::MeasuringT2, EventView::MeasuredT2(Err(e))) => (finished, ActionView::Finish(Err(e))),
        (RunPhase::MeasuringT2, EventView::MeasuredT2(Ok(t2))) => (
            QubitCalibrationRun { phase: RunPhase::TuningGate, t2_ns: t2, ..run },
            ActionView::TuneGate,
        ),
        (RunPhase::TuningGate, EventView::GateTuned(Err(e))) => (finished, ActionView::Finish(Err(e))),
        (RunPhase::TuningGate, EventView::GateTuned(Ok((pi_ns, fidelity)))) => {
            let run = QubitCalibrationRun { pi_pulse_duration_ns: pi_ns, fidelity, ..run };
            if run.t2_ns > run.t1_ns {
                (
                    QubitCalibrationRun { phase: RunPhase::RecordingFailure("T2 > T1"), ..run },
                    ActionView::RecordFailure(t2_above_t1_reason()),
                )
            } else {
                (
                    QubitCalibrationRun { phase: RunPhase::CheckingFidelity, ..run },
                    ActionView::CheckFidelity { fidelity, minimum: run.thresholds.min_fidelity },
                )
            }
        },
        (RunPhase::CheckingFidelity, EventView::FidelityChecked(Some(reason))) => (
            QubitCalibrationRun { phase: RunPhase::RecordingFailure("fidelity below threshold"), ..run },
            ActionView::RecordFailure(reason),
        ),
        (RunPhase::CheckingFidelity, EventView::FidelityChecked(None)) => after_fidelity(run),
        (RunPhase::RecordingFailure(msg), EventView::Acknowledged) => (
            finished,
            ActionView::Finish(Err(CalibrationError::Validation(msg))),
        ),
        (RunPhase::Committing, EventView::Acknowledged) => (
            QubitCalibrationRun { phase: RunPhase::LoadingSaved, ..run },
            ActionView::LoadParams,
        ),
        (RunPhase::LoadingSaved, EventView::Loaded(Some(saved))) => (
            QubitCalibrationRun { phase: RunPhase::RecordingSuccess(saved), ..run },
            ActionView::RecordSuccess,
        ),
        (RunPhase::RecordingSuccess(saved), EventView::Acknowledged) => (
            finished,
            ActionView::Finish(
                Ok(
                    QubitCalibration {
                        qubit: QubitId(run.qubit),
                        params: saved,
                        crosstalk_schedule_ok: !has_conflicts(crosstalk_template(run.qubit)),
                    },
                ),
            ),
        ),
        // Not reached from `step`, whose caller supplies only events the phase accepts.
        _ => (run, ActionView::Finish(Err(CalibrationError::Validation("unexpected event")))),
    }
}

/// The state of a run before anything is known: waiting for the stored row, with no
/// measurement taken (the measurement fields hold zeros until they are set).
pub open spec fn initial_run(qubit: u8, thresholds: HealthThresholds, incremental: bool) -> QubitCalibrationRun {
    QubitCalibrationRun {
        qubit,
        thresholds,
        incremental,
        phase: RunPhase::LoadingPrevious,
        previous: None,
        drive_frequency_ghz: F64Bits(0),
        t1_ns: 0,
        t2_ns: 0,
        pi_pulse_duration_ns: 0,
        fidelity: F64Bits(0),
    }
}

/// What holds of every run state reachable from [`QubitCalibrationRun::start`]: once the
/// T2 <= T1 check has passed, the measured T2 does not exceed T1.
pub open spec fn run_inv(run: QubitCalibrationRun) -> bool {
    (run.phase is CheckingFidelity || run.phase is Committing || run.phase is LoadingSaved
        || run.phase is RecordingSuccess) ==> run.t2_ns <= run.t1_ns
}

/// Every transition keeps [`run_inv`].
pub proof fn lemma_run_inv_kept(run: QubitCalibrationRun, event: EventView)
    requires
        run_inv(run),
        accepts(run.phase, event),
    ensures
        run_inv(next(run, event).0),
{
}

/// A successful sweep sets the run's drive frequency to the frequency it found, whether or
/// not the store held a row for the qubit.
pub proof fn lemma_sweep_sets_drive_frequency(run: QubitCalibrationRun, found: F64Bits)
    requires
        run.phase is Sweeping,
    ensures
        next(run, EventView::Swept(Ok(found))).0.drive_frequency_ghz == found,
{
}

/// No step but the sweep changes the run's drive frequency, T1/T2 only change on their
/// measurement or on reuse of the stored row, and the π pulse and fidelity only on the
/// π-pulse calibration.
pub proof fn lemma_measurements_change_only_at_their_step(run: QubitCalibrationRun, event: EventView)
    requires
        accepts(run.phase, event),
    ensures
        !(run.phase is Sweeping) ==> next(run, event).0.drive_frequency_ghz == run.drive_frequency_ghz,
        !(run.phase is MeasuringT1) && !(run.phase is LoadingStoredRelaxation) ==> next(run, event).0.t1_ns
            == run.t1_ns,
        !(run.phase is MeasuringT2) && !(run.phase is LoadingStoredRelaxation) ==> next(run, event).0.t2_ns
            == run.t2_ns,
        !(run.phase is TuningGate) ==> next(run, event).0.pi_pulse_duration_ns == run.pi_pulse_duration_ns
            && next(run, event).0.fidelity == run.fidelity,
        next(run, event).0.qubit == run.qubit,
{
}

/// The row a run commits holds exactly the run's own measurements: the drive frequency of
/// its sweep, its T1, T2, π-pulse duration and fidelity; generation 0, for the store to set.
pub proof fn lemma_commit_carries_run_measurements(run: QubitCalibrationRun, event: EventView)
    requires
        accepts(run.phase, event),
        next(run, event).1 is Commit,
    ensures
        ({
            let p = next(run, event).1->Commit_0;
            &&& p.drive_frequency_ghz == run.drive_frequency_ghz
            &&& p.t1_ns == run.t1_ns
            &&& p.t2_ns == run.t2_ns
            &&& p.pi_pulse_duration_ns == run.pi_pulse_duration_ns
            &&& p.single_qubit_fidelity == run.fidelity
            &&& p.generation == 0
        }),
{
}

/// A run commits only measurements that passed every check: the fidelity verdict was
/// "met", T2 <= T1, and the crosstalk template is free of conflicts. It commits exactly
/// what it measured, with generation 0 for the store to set.
pub proof fn lemma_commit_only_after_validation(run: QubitCalibrationRun, event: EventView)
    requires
        run_inv(run),
        accepts(run.phase, event),
        next(run, event).1 is Commit,
    ensures
        run.phase is CheckingFidelity,
        event == EventView::FidelityChecked(None),
        !has_conflicts(crosstalk_template(run.qubit)),
        next(run, event).1 == ActionView::Commit(measured_params(run)),
        measured_params(run).t2_ns <= measured_params(run).t1_ns,
        measured_params(run).generation == 0,
{
}

/// A failed experiment ends the run with its error at once: nothing is committed and no
/// failure is recorded with the health monitor.
pub proof fn lemma_experiment_error_finishes_run(
    run: QubitCalibrationRun,
    event: EventView,
    e: CalibrationError,
)
    requires
        accepts(run.phase, event),
        event == EventView::Swept(Err(e)) || event == EventView::MeasuredT1(Err(e))
            || event == EventView::MeasuredT2(Err(e)) || event == EventView::GateTuned(Err(e)),
    ensures
        next(run, event).1 == ActionView::Finish(Err(e)),
        next(run, event).0.phase is Finished,
{
}

/// A recorded failure is followed by the end of the run with the validation error.
pub proof fn lemma_recorded_failure_finishes_run(run: QubitCalibrationRun, msg: &'static str)
    requires
        run.phase == RunPhase::RecordingFailure(msg),
    ensures
        next(run, EventView::Acknowledged).1 == ActionView::Finish(Err(CalibrationError::Validation(msg))),
        next(run, EventView::Acknowledged).0.phase is Finished,
{
}

/// An incremental run whose stored T1/T2 are still in range reuses them and goes
/// straight to π-pulse calibration, without measuring.
pub proof fn lemma_incremental_reuses_stored_relaxation(
    run: QubitCalibrationRun,
    stored: CalibrationParams,
)
    requires
        run.phase is LoadingStoredRelaxation,
        reusable_relaxation(Some(stored), run.thresholds.min_t1_ns),
    ensures
        next(run, EventView::Loaded(Some(stored))).1 is TuneGate,
        next(run, EventView::Loaded(Some(stored))).0.t1_ns == stored.t1_ns,
        next(run, EventView::Loaded(Some(stored))).0.t2_ns == stored.t2_ns,
{
}

impl QubitCalibrationRun {
    /// A new run for `qubit`; its first action loads the qubit's stored row.
    pub fn start(qubit: u8, thresholds: HealthThresholds, incremental: bool) -> (r: (Self, CalibrationAction))
        ensures
            r.0 == initial_run(qubit, thresholds, incremental),
            r.1@ is LoadParams,
            run_inv(r.0),
    {
        let run = QubitCalibrationRun {
            qubit,
            thresholds,
            incremental,
            phase: RunPhase::LoadingPrevious,
            previous: None,
            drive_frequency_ghz: F64Bits(0),
            t1_ns: 0,
            t2_ns: 0,
            pi_pulse_duration_ns: 0,
            fidelity: F64Bits(0),
        };
        (run, CalibrationAction::LoadParams)
    }

    /// Whether the run can take `event` now (see [`accepts`]).
    pub fn accepts_event(&self, event: &CalibrationEvent) -> (ok: bool)
        ensures
            ok == accepts(self.phase, event@),
    {
        match (self.phase, event) {
            (RunPhase::LoadingPrevious, CalibrationEvent::Loaded(_)) => true,
            (RunPhase::Sweeping, CalibrationEvent::Swept(_)) => true,
            (RunPhase::ComparingDrift, CalibrationEvent::DriftCompared(_)) => true,
            (RunPhase::WarningDrift, CalibrationEvent::Acknowledged) => true,
            (RunPhase::LoadingStoredRelaxation, CalibrationEvent::Loaded(_)) => true,
            (RunPhase::MeasuringT1, CalibrationEvent::MeasuredT1(_)) => true,
            (RunPhase::MeasuringT2, CalibrationEvent::MeasuredT2(_)) => true,
            (RunPhase::TuningGate, CalibrationEvent::GateTuned(_)) => true,
            (RunPhase::CheckingFidelity, CalibrationEvent::FidelityChecked(_)) => true,
            (RunPhase::RecordingFailure(_), CalibrationEvent::Acknowledged) => true,
            (RunPhase::Committing, CalibrationEvent::Acknowledged) => true,
            (RunPhase::LoadingSaved, CalibrationEvent::Loaded(Some(_))) => true,
            (RunPhase::RecordingSuccess(_), CalibrationEvent::Acknowledged) => true,
            _ => false,
        }
    }

    fn proceed_after_drift(&mut self) -> (a: CalibrationAction)
        ensures
            (*final(self), a@) == after_drift(*old(self)),
    {
        if self.incremental {
            self.phase = RunPhase::LoadingStoredRelaxation;
            CalibrationAction::LoadParams
        } else {
            self.phase = RunPhase::MeasuringT1;
            CalibrationAction::MeasureT1
        }
    }

    fn proceed_after_fidelity(&mut self) -> (a: CalibrationAction)
        ensures
            (*final(self), a@) == after_fidelity(*old(self)),
    {
        if !crosstalk_template_ok(self.qubit) {
            self.phase = RunPhase::RecordingFailure("crosstalk");
            proof { reveal_strlit("crosstalk template conflict"); }
            CalibrationAction::RecordFailure(String::from_str("crosstalk template conflict"))
        } else {
            self.phase = RunPhase::Committing;
            CalibrationAction::Commit(CalibrationParams {
                drive_frequency_ghz: self.drive_frequency_ghz,
                t1_ns: self.t1_ns,
                t2_ns: self.t2_ns,
                pi_pulse_duration_ns: self.pi_pulse_duration_ns,
                single_qubit_fidelity: self.fidelity,
                generation: 0,
            })
        }
    }

    fn unexpected() -> (a: CalibrationAction)
        ensures
            a@ == ActionView::Finish(Err(CalibrationError::Validation("unexpected event"))),
    {
        CalibrationAction::Finish(Err(CalibrationError::Validation("unexpected event")))
    }

    /// Takes the outcome of the last action and returns the next action (see [`next`]).
    pub fn step(&mut self, event: CalibrationEvent) -> (a: CalibrationAction)
        requires
            accepts(old(self).phase, event@),
        ensures
            (*final(self), a@) == next(*old(self), event@),
            run_inv(*old(self)) ==> run_inv(*final(self)),
    {
        proof {
            if run_inv(*old(self)) {
                lemma_run_inv_kept(*old(self), event@);
            }
        }
        match event {
            CalibrationEvent::Loaded(p) => {
                match self.phase {
                    RunPhase::LoadingPrevious => {
                        self.previous = p;
                        self.phase = RunPhase::Sweeping;
                        CalibrationAction::SweepFrequency
                    },
                    RunPhase::LoadingStoredRelaxation => {
                        match p {
                            Some(stored) => {
                                if stored.t1_ns >= self.thresholds.min_t1_ns && stored.t2_ns <= stored.t1_ns {
                                    self.t1_ns = stored.t1_ns;
                                    self.t2_ns = stored.t2_ns;
                                    self.phase = RunPhase::TuningGate;
                                    CalibrationAction::TuneGate
                                } else {
                                    self.phase = RunPhase::MeasuringT1;
                                    CalibrationAction::MeasureT1
                                }
                            },
                            None => {
                                self.phase = RunPhase::MeasuringT1;
                                CalibrationAction::MeasureT1
                            },
                        }
                    },
                    RunPhase::LoadingSaved if p.is_some() => {
                        let saved = p.unwrap();
                        self.phase = RunPhase::RecordingSuccess(saved);
                        CalibrationAction::RecordSuccess
                    },
                    _ => Self::unexpected(),
                }
            },
            CalibrationEvent::Swept(r) => {
                match r {
                    Err(e) => {
                        self.phase = RunPhase::Finished;
                        CalibrationAction::Finish(Err(e))
                    },
                    Ok(drive) => {
                        self.drive_frequency_ghz = drive;
                        match self.previous {
                            Some(p) => {
                                self.phase = RunPhase::ComparingDrift;
                                CalibrationAction::CompareDrift {
                                    previous: p.drive_frequency_ghz,
                                    current: drive,
                                    threshold: self.thresholds.max_freq_drift_ghz,
                                }
                            },
                            None => self.proceed_after_drift(),
                        }
                    },
                }
            },
            CalibrationEvent::DriftCompared(d) => {
                match d {
                    Some(detail) => {
                        self.phase = RunPhase::WarningDrift;
                        CalibrationAction::WarnDrift(detail)
                    },
                    None => self.proceed_after_drift(),
                }
            },
            CalibrationEvent::MeasuredT1(r) => {
                match r {
                    Err(e) => {
                        self.phase = RunPhase::Finished;
                        CalibrationAction::Finish(Err(e))
                    },
                    Ok(t1) => {
                        self.t1_ns = t1;
                        self.phase = RunPhase::MeasuringT2;
                        CalibrationAction::MeasureT2
                    },
                }
            },
            CalibrationEvent::MeasuredT2(r) => {
                match r {
                    Err(e) => {
                        self.phase = RunPhase::Finished;
                        CalibrationAction::Finish(Err(e))
                    },
                    Ok(t2) => {
                        self.t2_ns = t2;
                        self.phase = RunPhase::TuningGate;
                        CalibrationAction::TuneGate
                    },
                }
            },
            CalibrationEvent::GateTuned(r) => {
                match r {
                    Err(e) => {
                        self.phase = RunPhase::Finished;
                        CalibrationAction::Finish(Err(e))
                    },
                    Ok((pi_ns, fidelity)) => {
                        self.pi_pulse_duration_ns = pi_ns;
                        self.fidelity = fidelity;
                        if self.t2_ns > self.t1_ns {
                            self.phase = RunPhase::RecordingFailure("T2 > T1");
                            proof { reveal_strlit("T2 > T1 (unphysical for this mock)"); }
                            CalibrationAction::RecordFailure(String::from_str("T2 > T1 (unphysical for this mock)"))
                        } else {
                            self.phase = RunPhase::CheckingFidelity;
                            CalibrationAction::CheckFidelity { fidelity, minimum: self.thresholds.min_fidelity }
                        }
                    },
                }
            },
            CalibrationEvent::FidelityChecked(v) => {
                match v {
                    Some(reason) => {
                        self.phase = RunPhase::RecordingFailure("fidelity below threshold");
                        CalibrationAction::RecordFailure(reason)
                    },
                    None => self.proceed_after_fidelity(),
                }
            },
            CalibrationEvent::Acknowledged => {
                match self.phase {
                    RunPhase::WarningDrift => self.proceed_after_drift(),
                    RunPhase::RecordingFailure(msg) => {
                        self.phase = RunPhase::Finished;
                        CalibrationAction::Finish(Err(CalibrationError::Validation(msg)))
                    },
                    RunPhase::Committing => {
                        self.phase = RunPhase::LoadingSaved;
                        CalibrationAction::LoadParams
                    },
                    RunPhase::RecordingSuccess(saved) => {
                        let qubit = self.qubit;
                        self.phase = RunPhase::Finished;
                        CalibrationAction::Finish(
                            Ok(
                                QubitCalibration {
                                    qubit: QubitId(qubit),
                                    params: saved,
                                    crosstalk_schedule_ok: crosstalk_template_ok(qubit),
                                },
                            ),
                        )
                    },
                    _ => Self::unexpected(),
                }
            },
        }
    }
}

} // verus!
