use quantum_calibration::health::{
    Alert, HealthMonitor, HealthThresholds, ESCALATE_AFTER_FAILURES,
};

#[test]
fn default_thresholds() {
    let t = HealthThresholds::default();
    assert_eq!(t.min_t1_ns, 30_000);
    assert_eq!(f64::from_bits(t.max_freq_drift_ghz.0), 0.08);
    assert_eq!(f64::from_bits(t.min_fidelity.0), 0.99);
}

#[test]
fn third_consecutive_failure_escalates_once() {
    let mut h = HealthMonitor::default();
    h.record_failure(2, "first");
    h.record_failure(2, "second");
    assert!(h.alerts.is_empty());
    h.record_failure(2, "fidelity low");
    assert_eq!(h.alerts.len(), 1);
    match &h.alerts[0] {
        Alert::EscalateHuman { qubit, reason } => {
            assert_eq!(*qubit, 2);
            assert_eq!(reason, "3 consecutive calibration failures: fidelity low");
        }
        other => panic!("unexpected alert {:?}", other),
    }
    // The streak starts over: two more failures raise nothing new.
    h.record_failure(2, "again");
    h.record_failure(2, "again");
    assert_eq!(h.alerts.len(), 1);
    h.record_failure(2, "again");
    assert_eq!(h.alerts.len(), 2);
    assert_eq!(ESCALATE_AFTER_FAILURES, 3);
}

#[test]
fn success_resets_failure_streak() {
    let mut h = HealthMonitor::default();
    h.record_failure(0, "a");
    h.record_failure(0, "b");
    h.record_success(0);
    h.record_failure(0, "c");
    h.record_failure(0, "d");
    assert!(h.alerts.is_empty());
    h.record_failure(0, "e");
    assert_eq!(h.alerts.len(), 1);
}

#[test]
fn failures_are_counted_per_qubit() {
    let mut h = HealthMonitor::default();
    h.record_failure(0, "x");
    h.record_failure(1, "x");
    h.record_failure(0, "x");
    h.record_failure(1, "x");
    assert!(h.alerts.is_empty());
}

#[test]
fn drift_warning_and_take_alerts() {
    let mut h = HealthMonitor::default();
    h.warn_drift(1, "drive moved 0.1000 GHz vs last good (threshold 0.0800)");
    let taken = h.take_alerts();
    assert_eq!(taken.len(), 1);
    assert!(h.alerts.is_empty());
    assert!(h.take_alerts().is_empty());
    assert_eq!(
        taken[0].display_text(),
        "[DRIFT] qubit 1: drive moved 0.1000 GHz vs last good (threshold 0.0800)"
    );
}

#[test]
fn escalation_display_text() {
    let a = Alert::EscalateHuman {
        qubit: 105,
        reason: "boom".to_string(),
    };
    assert_eq!(a.display_text(), "[ESCALATE] qubit 105: boom");
}
