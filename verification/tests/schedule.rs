use quantum_calibration::schedule::{calibration_due, CalibrationPolicy, RecalibrationCause};

const SEC_NS: u64 = 1_000_000_000;
/// An arbitrary current reading of the monotonic clock.
const NOW_NS: u64 = 86_400 * SEC_NS;

#[test]
fn chip_swap_takes_priority_over_period() {
    let policy = CalibrationPolicy {
        periodic_interval_ns: 3600 * SEC_NS,
    };
    let now = NOW_NS;
    let last = now.checked_sub(10 * SEC_NS);
    assert_eq!(
        calibration_due(last, now, true, &policy),
        Some(RecalibrationCause::ChipSwap)
    );
}

#[test]
fn never_calibrated_triggers_periodic() {
    let policy = CalibrationPolicy {
        periodic_interval_ns: 3600 * SEC_NS,
    };
    let now = NOW_NS;
    assert_eq!(
        calibration_due(None, now, false, &policy),
        Some(RecalibrationCause::Periodic)
    );
}

#[test]
fn recent_calibration_suppresses_periodic() {
    let policy = CalibrationPolicy {
        periodic_interval_ns: 3600 * SEC_NS,
    };
    let now = NOW_NS;
    let last = now.checked_sub(10 * SEC_NS).unwrap();
    assert_eq!(calibration_due(Some(last), now, false, &policy), None);
}

#[test]
fn elapsed_interval_triggers_periodic() {
    let policy = CalibrationPolicy {
        periodic_interval_ns: 3600 * SEC_NS,
    };
    let last = NOW_NS - 3600 * SEC_NS;
    assert_eq!(
        calibration_due(Some(last), NOW_NS, false, &policy),
        Some(RecalibrationCause::Periodic)
    );
    assert_eq!(calibration_due(Some(last + 1), NOW_NS, false, &policy), None);
}

#[test]
fn last_success_after_now_counts_as_no_time_elapsed() {
    let policy = CalibrationPolicy {
        periodic_interval_ns: 3600 * SEC_NS,
    };
    assert_eq!(calibration_due(Some(NOW_NS + 5), NOW_NS, false, &policy), None);
    let zero = CalibrationPolicy {
        periodic_interval_ns: 0,
    };
    assert_eq!(
        calibration_due(Some(NOW_NS + 5), NOW_NS, false, &zero),
        Some(RecalibrationCause::Periodic)
    );
}

#[test]
fn periodic_due_persists_as_time_goes_on() {
    let policy = CalibrationPolicy {
        periodic_interval_ns: 60 * SEC_NS,
    };
    let last = Some(NOW_NS);
    assert_eq!(calibration_due(last, NOW_NS + 60 * SEC_NS, false, &policy), Some(RecalibrationCause::Periodic));
    assert_eq!(calibration_due(last, NOW_NS + 600 * SEC_NS, false, &policy), Some(RecalibrationCause::Periodic));
}
