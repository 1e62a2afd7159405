use quantum_calibration::calibration::{
    assemble_cycle_report, assemble_suite_report, build_crosstalk_template, crosstalk_template_check, measure_t1_t2,
    qubit_passes_checks, run_validation_benchmark, QubitCalibration, QubitId,
};
use quantum_calibration::float_bits::F64Bits;
use quantum_calibration::parameter_store::CalibrationParams;
use quantum_calibration::routines::crosstalk_template_ok;

fn cal(q: u8, t1: u64, t2: u64, crosstalk: bool) -> QubitCalibration {
    QubitCalibration {
        qubit: QubitId(q),
        params: CalibrationParams {
            drive_frequency_ghz: F64Bits(5.0f64.to_bits()),
            t1_ns: t1,
            t2_ns: t2,
            pi_pulse_duration_ns: 18,
            single_qubit_fidelity: F64Bits(0.999f64.to_bits()),
            generation: 1,
        },
        crosstalk_schedule_ok: crosstalk,
    }
}

#[test]
fn mock_relaxation_times() {
    assert_eq!(measure_t1_t2(0), (55_000, 42_000));
    assert_eq!(measure_t1_t2(1), (56_500, 43_200));
    assert_eq!(measure_t1_t2(255), (55_000 + 1_500 * 255, 42_000 + 1_200 * 255));
}

#[test]
fn crosstalk_template_is_safe() {
    for q in [0u8, 1, 7, 255] {
        assert!(crosstalk_template_check(q));
        assert!(crosstalk_template_ok(q));
        let t = build_crosstalk_template(q);
        assert_eq!(t.len(), 2);
        assert_eq!((t[0].channel, t[0].start_ns), (q, 0));
        assert_eq!((t[1].channel, t[1].start_ns), (q, 200));
        assert_eq!(f64::from_bits(t[1].frequency_ghz.0), 5.0);
    }
}

#[test]
fn per_qubit_checks() {
    assert!(qubit_passes_checks(&cal(0, 10, 10, true), true));
    assert!(!qubit_passes_checks(&cal(0, 10, 11, true), true));
    assert!(!qubit_passes_checks(&cal(0, 10, 5, false), true));
    assert!(!qubit_passes_checks(&cal(0, 10, 5, true), false));
}

#[test]
fn cycle_report_sorted_and_validated() {
    let completed = vec![(cal(1, 10, 5, true), true), (cal(0, 10, 5, true), true)];
    let r = assemble_cycle_report(2, completed);
    assert!(r.validation_passed);
    assert!(run_validation_benchmark(&r));
    let ids: Vec<u8> = r.qubits.iter().map(|q| q.qubit.0).collect();
    assert_eq!(ids, vec![0, 1]);
}

#[test]
fn cycle_report_fails_on_missing_qubit_or_failed_check() {
    let r = assemble_cycle_report(2, vec![(cal(1, 10, 5, true), true)]);
    assert!(!r.validation_passed);
    assert_eq!(r.qubits.len(), 1);
    let r = assemble_cycle_report(2, vec![(cal(1, 10, 5, true), true), (cal(0, 10, 5, true), false)]);
    assert!(!r.validation_passed);
    assert!(!run_validation_benchmark(&r));
    let r = assemble_cycle_report(0, Vec::new());
    assert!(r.validation_passed);
}

#[test]
fn suite_report_keeps_order_and_checks_every_qubit() {
    let r = assemble_suite_report(vec![(cal(1, 10, 5, true), true), (cal(0, 10, 5, true), true)]);
    assert!(r.validation_passed);
    let ids: Vec<u8> = r.qubits.iter().map(|q| q.qubit.0).collect();
    assert_eq!(ids, vec![1, 0]);
    let r = assemble_suite_report(vec![(cal(0, 10, 5, true), true), (cal(1, 10, 11, true), true)]);
    assert!(!r.validation_passed);
    assert_eq!(r.qubits.len(), 2);
}
