use quantum_calibration::calibration::QubitId;
use quantum_calibration::float_bits::F64Bits;
use quantum_calibration::hardware::HardwareError;
use quantum_calibration::health::HealthThresholds;
use quantum_calibration::parameter_store::CalibrationParams;
use quantum_calibration::routines::{
    CalibrationAction, CalibrationError, CalibrationEvent, QubitCalibrationRun,
};

fn b(x: f64) -> F64Bits {
    F64Bits(x.to_bits())
}

fn stored(t1: u64, t2: u64) -> CalibrationParams {
    CalibrationParams {
        drive_frequency_ghz: b(5.02),
        t1_ns: t1,
        t2_ns: t2,
        pi_pulse_duration_ns: 18,
        single_qubit_fidelity: b(0.9992),
        generation: 1,
    }
}

fn step(run: &mut QubitCalibrationRun, e: CalibrationEvent) -> CalibrationAction {
    assert!(run.accepts_event(&e));
    run.step(e)
}

#[test]
fn cold_full_run_commits_and_succeeds() {
    let (mut run, a) = QubitCalibrationRun::start(0, HealthThresholds::default(), false);
    assert!(matches!(a, CalibrationAction::LoadParams));
    let a = step(&mut run, CalibrationEvent::Loaded(None));
    assert!(matches!(a, CalibrationAction::SweepFrequency));
    // No previous row: no drift comparison, measure T1 next.
    let a = step(&mut run, CalibrationEvent::Swept(Ok(b(5.02))));
    assert!(matches!(a, CalibrationAction::MeasureT1));
    let a = step(&mut run, CalibrationEvent::MeasuredT1(Ok(55_000)));
    assert!(matches!(a, CalibrationAction::MeasureT2));
    let a = step(&mut run, CalibrationEvent::MeasuredT2(Ok(42_000)));
    assert!(matches!(a, CalibrationAction::TuneGate));
    let a = step(&mut run, CalibrationEvent::GateTuned(Ok((18, b(0.9992)))));
    match a {
        CalibrationAction::CheckFidelity { fidelity, minimum } => {
            assert_eq!(fidelity, b(0.9992));
            assert_eq!(minimum, b(0.99));
        }
        other => panic!("unexpected {:?}", other),
    }
    let a = step(&mut run, CalibrationEvent::FidelityChecked(None));
    let committed = match a {
        CalibrationAction::Commit(p) => p,
        other => panic!("unexpected {:?}", other),
    };
    assert_eq!(committed.t1_ns, 55_000);
    assert_eq!(committed.t2_ns, 42_000);
    assert_eq!(committed.pi_pulse_duration_ns, 18);
    assert_eq!(committed.drive_frequency_ghz, b(5.02));
    assert_eq!(committed.generation, 0);
    let a = step(&mut run, CalibrationEvent::Acknowledged);
    assert!(matches!(a, CalibrationAction::LoadParams));
    let saved = CalibrationParams { generation: 1, ..committed };
    let a = step(&mut run, CalibrationEvent::Loaded(Some(saved)));
    assert!(matches!(a, CalibrationAction::RecordSuccess));
    match step(&mut run, CalibrationEvent::Acknowledged) {
        CalibrationAction::Finish(Ok(q)) => {
            assert_eq!(q.qubit, QubitId(0));
            assert_eq!(q.params, saved);
            assert!(q.crosstalk_schedule_ok);
        }
        other => panic!("unexpected {:?}", other),
    }
}

#[test]
fn drift_against_previous_raises_warning() {
    let (mut run, _) = QubitCalibrationRun::start(1, HealthThresholds::default(), false);
    step(&mut run, CalibrationEvent::Loaded(Some(stored(56_500, 43_200))));
    match step(&mut run, CalibrationEvent::Swept(Ok(b(5.2)))) {
        CalibrationAction::CompareDrift { previous, current, threshold } => {
            assert_eq!(previous, b(5.02));
            assert_eq!(current, b(5.2));
            assert_eq!(threshold, b(0.08));
        }
        other => panic!("unexpected {:?}", other),
    }
    match step(&mut run, CalibrationEvent::DriftCompared(Some("moved".to_string()))) {
        CalibrationAction::WarnDrift(d) => assert_eq!(d, "moved"),
        other => panic!("unexpected {:?}", other),
    }
    let a = step(&mut run, CalibrationEvent::Acknowledged);
    assert!(matches!(a, CalibrationAction::MeasureT1));
}

#[test]
fn incremental_run_reuses_stored_relaxation() {
    let (mut run, _) = QubitCalibrationRun::start(0, HealthThresholds::default(), true);
    step(&mut run, CalibrationEvent::Loaded(Some(stored(55_000, 42_000))));
    step(&mut run, CalibrationEvent::Swept(Ok(b(5.02))));
    let a = step(&mut run, CalibrationEvent::DriftCompared(None));
    assert!(matches!(a, CalibrationAction::LoadParams));
    let a = step(&mut run, CalibrationEvent::Loaded(Some(stored(55_000, 42_000))));
    assert!(matches!(a, CalibrationAction::TuneGate));
    assert_eq!((run.t1_ns, run.t2_ns), (55_000, 42_000));
}

#[test]
fn incremental_run_measures_when_stored_out_of_range() {
    for bad in [stored(20_000, 10_000), stored(50_000, 60_000)] {
        let (mut run, _) = QubitCalibrationRun::start(0, HealthThresholds::default(), true);
        step(&mut run, CalibrationEvent::Loaded(None));
        step(&mut run, CalibrationEvent::Swept(Ok(b(5.02))));
        // No previous row at the start: straight to the stored-relaxation read.
        let a = step(&mut run, CalibrationEvent::Loaded(Some(bad)));
        assert!(matches!(a, CalibrationAction::MeasureT1));
    }
}

#[test]
fn t2_above_t1_records_failure_then_fails() {
    let (mut run, _) = QubitCalibrationRun::start(0, HealthThresholds::default(), false);
    step(&mut run, CalibrationEvent::Loaded(None));
    step(&mut run, CalibrationEvent::Swept(Ok(b(5.02))));
    step(&mut run, CalibrationEvent::MeasuredT1(Ok(40_000)));
    step(&mut run, CalibrationEvent::MeasuredT2(Ok(40_001)));
    match step(&mut run, CalibrationEvent::GateTuned(Ok((18, b(0.9992))))) {
        CalibrationAction::RecordFailure(r) => assert_eq!(r, "T2 > T1 (unphysical for this mock)"),
        other => panic!("unexpected {:?}", other),
    }
    match step(&mut run, CalibrationEvent::Acknowledged) {
        CalibrationAction::Finish(Err(CalibrationError::Validation(m))) => assert_eq!(m, "T2 > T1"),
        other => panic!("unexpected {:?}", other),
    }
    assert!(!run.accepts_event(&CalibrationEvent::Acknowledged));
}

#[test]
fn low_fidelity_records_failure_then_fails() {
    let (mut run, _) = QubitCalibrationRun::start(0, HealthThresholds::default(), false);
    step(&mut run, CalibrationEvent::Loaded(None));
    step(&mut run, CalibrationEvent::Swept(Ok(b(5.02))));
    step(&mut run, CalibrationEvent::MeasuredT1(Ok(55_000)));
    step(&mut run, CalibrationEvent::MeasuredT2(Ok(42_000)));
    step(&mut run, CalibrationEvent::GateTuned(Ok((18, b(0.9)))));
    match step(&mut run, CalibrationEvent::FidelityChecked(Some("fidelity 0.9000 below 0.9900".to_string()))) {
        CalibrationAction::RecordFailure(r) => assert_eq!(r, "fidelity 0.9000 below 0.9900"),
        other => panic!("unexpected {:?}", other),
    }
    match step(&mut run, CalibrationEvent::Acknowledged) {
        CalibrationAction::Finish(Err(CalibrationError::Validation(m))) => {
            assert_eq!(m, "fidelity below threshold")
        }
        other => panic!("unexpected {:?}", other),
    }
}

#[test]
fn hardware_error_ends_run_without_record() {
    let (mut run, _) = QubitCalibrationRun::start(9, HealthThresholds::default(), false);
    step(&mut run, CalibrationEvent::Loaded(None));
    let e = CalibrationError::from(HardwareError::InvalidQubit(9));
    match step(&mut run, CalibrationEvent::Swept(Err(e))) {
        CalibrationAction::Finish(Err(CalibrationError::Hardware(HardwareError::InvalidQubit(9)))) => {}
        other => panic!("unexpected {:?}", other),
    }
}

#[test]
fn missing_row_after_commit_is_not_accepted() {
    let (mut run, _) = QubitCalibrationRun::start(0, HealthThresholds::default(), false);
    step(&mut run, CalibrationEvent::Loaded(None));
    step(&mut run, CalibrationEvent::Swept(Ok(b(5.02))));
    step(&mut run, CalibrationEvent::MeasuredT1(Ok(55_000)));
    step(&mut run, CalibrationEvent::MeasuredT2(Ok(42_000)));
    step(&mut run, CalibrationEvent::GateTuned(Ok((18, b(0.9992)))));
    step(&mut run, CalibrationEvent::FidelityChecked(None));
    step(&mut run, CalibrationEvent::Acknowledged);
    assert!(!run.accepts_event(&CalibrationEvent::Loaded(None)));
    assert!(!run.accepts_event(&CalibrationEvent::Acknowledged));
}
