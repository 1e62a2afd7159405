use quantum_calibration::drift_predictor::{PredictiveDriftDetector, MAX_WINDOW};
use quantum_calibration::float_bits::F64Bits;

fn b(x: f64) -> F64Bits {
    F64Bits(x.to_bits())
}

#[test]
fn history_keeps_most_recent_window() {
    let mut d = PredictiveDriftDetector::new(b(0.08));
    for i in 0..25 {
        d.record_observation(0, b(5.0 + i as f64 * 0.001), b(i as f64 * 100.0));
    }
    d.record_observation(1, b(5.2), b(0.0));
    let h = &d.histories()[&0];
    assert_eq!(h.len(), MAX_WINDOW);
    assert_eq!(f64::from_bits(h[0].timestamp_secs.0), 500.0);
    assert_eq!(f64::from_bits(h[MAX_WINDOW - 1].timestamp_secs.0), 2400.0);
    assert_eq!(d.histories()[&1].len(), 1);
    assert_eq!(d.histories().len(), 2);
    assert_eq!(d.tolerance_ghz, b(0.08));
}
