use quantum_calibration::calibration::CalibrationReport;
use quantum_calibration::controller::CalibrationController;
use quantum_calibration::schedule::{CalibrationPolicy, RecalibrationCause};

const SEC_NS: u64 = 1_000_000_000;

fn report() -> CalibrationReport {
    CalibrationReport {
        qubits: Vec::new(),
        validation_passed: true,
    }
}

#[test]
fn new_controller_is_due_for_cold_start() {
    let c = CalibrationController::new(CalibrationPolicy {
        periodic_interval_ns: 3600 * SEC_NS,
    });
    assert_eq!(c.recalibration_cause(0), Some(RecalibrationCause::Periodic));
}

#[test]
fn run_when_due_records_time_and_clears_chip_swap() {
    let mut c = CalibrationController::new(CalibrationPolicy {
        periodic_interval_ns: 3600 * SEC_NS,
    });
    c.notify_chip_swap();
    assert_eq!(c.recalibration_cause(5 * SEC_NS), Some(RecalibrationCause::ChipSwap));
    let mut runs = 0;
    let r = c.run_full_calibration_if_due(5 * SEC_NS, || {
        runs += 1;
        report()
    });
    assert!(r.is_some());
    assert!(r.unwrap().validation_passed);
    assert_eq!(runs, 1);
    // Nothing due right after, nor within the interval.
    assert_eq!(c.recalibration_cause(5 * SEC_NS), None);
    assert_eq!(c.recalibration_cause(100 * SEC_NS), None);
    assert_eq!(
        c.recalibration_cause(3605 * SEC_NS),
        Some(RecalibrationCause::Periodic)
    );
}

#[test]
fn run_when_not_due_does_nothing() {
    let mut c = CalibrationController::new(CalibrationPolicy {
        periodic_interval_ns: 3600 * SEC_NS,
    });
    assert!(c.run_full_calibration_if_due(0, report).is_some());
    let mut runs = 0;
    let r = c.run_full_calibration_if_due(10 * SEC_NS, || {
        runs += 1;
        report()
    });
    assert!(r.is_none());
    assert_eq!(runs, 0);
    // The last calibration stays at 0: due again one interval after it.
    assert_eq!(
        c.recalibration_cause(3600 * SEC_NS),
        Some(RecalibrationCause::Periodic)
    );
}
