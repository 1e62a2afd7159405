use quantum_calibration::float_bits::F64Bits;
use quantum_calibration::hardware::{diagnostic, HardwareError, MockHardwareState, MockReading};
use quantum_calibration::pulse::Pulse;

fn tagged(q: u8, tag: u64, ghz: f64) -> Pulse {
    Pulse {
        channel: q,
        start_ns: tag,
        frequency_ghz: F64Bits(ghz.to_bits()),
    }
}

#[test]
fn unknown_qubit_is_refused() {
    let mut hw = MockHardwareState::two_qubit_lab();
    assert_eq!(hw.send_pulse(2, tagged(2, diagnostic::T1, 0.0)), Err(HardwareError::InvalidQubit(2)));
    assert_eq!(hw.read_result(2), Err(HardwareError::InvalidQubit(2)));
}

#[test]
fn read_without_pulse_is_not_armed() {
    let hw = MockHardwareState::two_qubit_lab();
    assert_eq!(hw.read_result(0), Err(HardwareError::NotArmed));
}

#[test]
fn read_gives_back_armed_experiment() {
    let mut hw = MockHardwareState::two_qubit_lab();
    hw.send_pulse(1, tagged(1, diagnostic::T1, 0.0)).unwrap();
    assert_eq!(hw.read_result(1), Ok(MockReading::RelaxationTimeNs(56_500)));
    hw.send_pulse(1, tagged(1, diagnostic::T2, 0.0)).unwrap();
    assert_eq!(hw.read_result(1), Ok(MockReading::DephasingTimeNs(43_200)));
    hw.send_pulse(1, tagged(1, diagnostic::GATE_TUNE, 0.0)).unwrap();
    assert_eq!(hw.read_result(1), Ok(MockReading::GateTune { qubit: 1, duration_ns: 20 }));
    hw.send_pulse(0, tagged(0, diagnostic::SPECTROSCOPY, 5.1)).unwrap();
    assert_eq!(
        hw.read_result(0),
        Ok(MockReading::Spectroscopy {
            probe_ghz: F64Bits(5.1f64.to_bits()),
            resonance_ghz: F64Bits(5.02f64.to_bits()),
        })
    );
    // Qubit 1 still holds its own last pulse.
    assert_eq!(hw.read_result(1), Ok(MockReading::GateTune { qubit: 1, duration_ns: 20 }));
    hw.send_pulse(0, tagged(0, 9, 0.0)).unwrap();
    assert_eq!(hw.read_result(0), Err(HardwareError::NotArmed));
}

#[test]
fn lab_resonances() {
    let mut hw = MockHardwareState::two_qubit_lab();
    hw.send_pulse(1, tagged(1, diagnostic::SPECTROSCOPY, 5.0)).unwrap();
    match hw.read_result(1) {
        Ok(MockReading::Spectroscopy { resonance_ghz, .. }) => {
            assert_eq!(f64::from_bits(resonance_ghz.0), 5.15)
        }
        other => panic!("unexpected {:?}", other),
    }
}
