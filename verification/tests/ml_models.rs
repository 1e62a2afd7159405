use quantum_calibration::ml_models::ModelError;
use quantum_calibration::text::decimal;

#[test]
fn model_error_messages() {
    assert_eq!(
        ModelError::InsufficientData { required: 3, got: 1 }.display_text(),
        "Need 3 observations, got 1"
    );
    assert_eq!(ModelError::NotFitted.display_text(), "Model not fitted yet");
    assert_eq!(ModelError::NumericalInstability.display_text(), "Numerical instability in fit");
}

#[test]
fn decimal_text_of_integers() {
    assert_eq!(decimal(0), "0");
    assert_eq!(decimal(7), "7");
    assert_eq!(decimal(10), "10");
    assert_eq!(decimal(1234567890), "1234567890");
    assert_eq!(decimal(u64::MAX), u64::MAX.to_string());
}
