//! Hardware interface types: errors, measurements, and the state of the mock control
//! electronics.
use vstd::prelude::*;

use std::collections::HashMap;

use crate::calibration::{mock_t1_ns, mock_t2_ns};
use crate::float_bits::F64Bits;
use crate::pulse::Pulse;

pub mod diagnostic;

verus! {

/// A measurement read back from the hardware.
#[derive(Clone, Copy, Debug, PartialEq, Eq, Structural)]
pub enum Measurement {
    /// Probe response of a spectroscopy experiment.
    SpectroscopyResponse { response: F64Bits },
    RelaxationTimeNs(u64),
    DephasingTimeNs(u64),
    GateTune { duration_ns: u64, fidelity: F64Bits },
}

/// Why the hardware refused a request.
#[derive(Clone, Copy, Debug, PartialEq, Eq, Structural)]
pub enum HardwareError {
    /// No such qubit on this machine.
    InvalidQubit(u8),
    /// A read without an experiment armed by a preceding pulse.
    NotArmed,
}

broadcast use vstd::std_specs::hash::group_hash_axioms;

/// The binary64 bit pattern of 5.02 (GHz), the resonance of qubit 0 of the mock lab.
pub const LAB_QUBIT0_RESONANCE_GHZ_BITS: u64 = 0x4014_147a_e147_ae14;

/// The binary64 bit pattern of 5.15 (GHz), the resonance of qubit 1 of the mock lab.
pub const LAB_QUBIT1_RESONANCE_GHZ_BITS: u64 = 0x4014_9999_9999_999a;

/// π-pulse duration of the mock model, in nanoseconds: 18 ns plus 2 ns per qubit index.
pub open spec fn mock_pi_pulse_ns(qubit: u8) -> u64 {
    (18 + 2 * qubit) as u64
}

/// What the mock electronics read back for an armed experiment, before the
/// floating-point parts of the physical model are evaluated.
#[derive(Clone, Copy, Debug, PartialEq, Eq, Structural)]
pub enum MockReading {
    /// A spectroscopy probe at `probe_ghz` on a qubit resonating at `resonance_ghz`
    /// (the response is a Lorentzian of their distance).
    Spectroscopy { probe_ghz: F64Bits, resonance_ghz: F64Bits },
    RelaxationTimeNs(u64),
    DephasingTimeNs(u64),
    /// A gate tune on `qubit`, with the model's π-pulse duration.
    GateTune { qubit: u8, duration_ns: u64 },
}

/// What the mock reads back from `qubit`, resonating at `resonance_ghz`, after `pulse`
/// armed it: the experiment that the pulse's start time tags (see [`diagnostic`]).
pub open spec fn armed_reading(qubit: u8, resonance_ghz: F64Bits, pulse: Pulse) -> Result<MockReading, HardwareError> {
    if pulse.start_ns == diagnostic::SPECTROSCOPY {
        Ok(MockReading::Spectroscopy { probe_ghz: pulse.frequency_ghz, resonance_ghz })
    } else if pulse.start_ns == diagnostic::T1 {
        Ok(MockReading::RelaxationTimeNs(mock_t1_ns(qubit)))
    } else if pulse.start_ns == diagnostic::T2 {
        Ok(MockReading::DephasingTimeNs(mock_t2_ns(qubit)))
    } else if pulse.start_ns == diagnostic::GATE_TUNE {
        Ok(MockReading::GateTune { qubit, duration_ns: mock_pi_pulse_ns(qubit) })
    } else {
        Err(HardwareError::NotArmed)
    }
}

/// What the mock reads back for `qubit` given the lines' resonances and last pulses.
pub open spec fn mock_read(
    resonances: Map<u8, F64Bits>,
    last_pulse: Map<u8, Pulse>,
    qubit: u8,
) -> Result<MockReading, HardwareError> {
    if !resonances.contains_key(qubit) {
        Err(HardwareError::InvalidQubit(qubit))
    } else if !last_pulse.contains_key(qubit) {
        Err(HardwareError::NotArmed)
    } else {
        armed_reading(qubit, resonances[qubit], last_pulse[qubit])
    }
}

/// After a pulse tagged for an experiment on a qubit of the machine, a read gives that
/// experiment's result under the mock model: T1 = 55 µs + 1.5 µs per qubit index,
/// T2 = 42 µs + 1.2 µs per qubit index, a π pulse of 18 ns + 2 ns per qubit index, and
/// for spectroscopy the probe frequency with the qubit's resonance; any other tag reads as
/// not armed.
pub proof fn lemma_tagged_read_gives_model(
    resonances: Map<u8, F64Bits>,
    last_pulse: Map<u8, Pulse>,
    qubit: u8,
    pulse: Pulse,
)
    requires
        resonances.contains_key(qubit),
    ensures
        pulse.start_ns == 1 ==> mock_read(resonances, last_pulse.insert(qubit, pulse), qubit)
            == Ok::<MockReading, HardwareError>(MockReading::RelaxationTimeNs((55_000 + 1_500 * qubit) as u64)),
        pulse.start_ns == 2 ==> mock_read(resonances, last_pulse.insert(qubit, pulse), qubit)
            == Ok::<MockReading, HardwareError>(MockReading::DephasingTimeNs((42_000 + 1_200 * qubit) as u64)),
        pulse.start_ns == 3 ==> mock_read(resonances, last_pulse.insert(qubit, pulse), qubit)
            == Ok::<MockReading, HardwareError>(MockReading::GateTune { qubit, duration_ns: (18 + 2 * qubit) as u64 }),
        pulse.start_ns == 0 ==> mock_read(resonances, last_pulse.insert(qubit, pulse), qubit)
            == Ok::<MockReading, HardwareError>(MockReading::Spectroscopy {
                probe_ghz: pulse.frequency_ghz,
                resonance_ghz: resonances[qubit],
            }),
        pulse.start_ns > 3 ==> mock_read(resonances, last_pulse.insert(qubit, pulse), qubit)
            == Err::<MockReading, HardwareError>(HardwareError::NotArmed),
        pulse.start_ns == 1 ==> mock_read(resonances, last_pulse.insert(qubit, pulse), qubit)
            == Ok::<MockReading, HardwareError>(MockReading::RelaxationTimeNs(mock_t1_ns(qubit))),
        mock_t1_ns(qubit) == 55_000 + 1_500 * qubit,
        mock_t2_ns(qubit) == 42_000 + 1_200 * qubit,
{
}

/// A read after a pulse on a line of the machine gives back the experiment that pulse
/// armed; pulses on other lines do not disturb it.
pub proof fn lemma_read_after_send(
    resonances: Map<u8, F64Bits>,
    last_pulse: Map<u8, Pulse>,
    qubit: u8,
    pulse: Pulse,
    other: u8,
    other_pulse: Pulse,
)
    requires
        resonances.contains_key(qubit),
        other != qubit,
    ensures
        mock_read(resonances, last_pulse.insert(qubit, pulse), qubit) == armed_reading(
            qubit,
            resonances[qubit],
            pulse,
        ),
        mock_read(resonances, last_pulse.insert(qubit, pulse).insert(other, other_pulse), qubit)
            == armed_reading(qubit, resonances[qubit], pulse),
{
}

/// The state of the simulated control electronics: each qubit line's true resonance and
/// the last pulse sent down it.
#[derive(Debug)]
pub struct MockHardwareState {
    resonances: HashMap<u8, F64Bits>,
    last_pulse: HashMap<u8, Pulse>,
}

impl MockHardwareState {
    /// The true resonance of each qubit line of the machine, in GHz.
    pub closed spec fn resonances(&self) -> Map<u8, F64Bits> {
        self.resonances@
    }

    /// The last pulse sent down each qubit line.
    pub closed spec fn last_pulses(&self) -> Map<u8, Pulse> {
        self.last_pulse@
    }

    /// The two-qubit lab: qubit 0 resonates at 5.02 GHz, qubit 1 at 5.15 GHz; nothing armed.
    pub fn two_qubit_lab() -> (s: Self)
        ensures
            s.resonances() == map![
                0u8 => F64Bits(LAB_QUBIT0_RESONANCE_GHZ_BITS),
                1u8 => F64Bits(LAB_QUBIT1_RESONANCE_GHZ_BITS),
            ],
            s.last_pulses() == Map::<u8, Pulse>::empty(),
    {
        let mut resonances: HashMap<u8, F64Bits> = HashMap::new();
        resonances.insert(0, F64Bits(LAB_QUBIT0_RESONANCE_GHZ_BITS));
        resonances.insert(1, F64Bits(LAB_QUBIT1_RESONANCE_GHZ_BITS));
        let s = MockHardwareState { resonances, last_pulse: HashMap::new() };
        assert(s.resonances() =~= map![
            0u8 => F64Bits(LAB_QUBIT0_RESONANCE_GHZ_BITS),
            1u8 => F64Bits(LAB_QUBIT1_RESONANCE_GHZ_BITS),
        ]);
        s
    }

    /// Sends `pulse` down the line of `qubit`, arming the experiment it is tagged with;
    /// refused for a qubit the machine does not have.
    pub fn send_pulse(&mut self, qubit: u8, pulse: Pulse) -> (r: Result<(), HardwareError>)
        ensures
            final(self).resonances() == old(self).resonances(),
            old(self).resonances().contains_key(qubit) ==> {
                &&& r is Ok
                &&& final(self).last_pulses() == old(self).last_pulses().insert(qubit, pulse)
            },
            !old(self).resonances().contains_key(qubit) ==> {
                &&& r == Err::<(), HardwareError>(HardwareError::InvalidQubit(qubit))
                &&& final(self).last_pulses() == old(self).last_pulses()
            },
    {
        if !self.resonances.contains_key(&qubit) {
            return Err(HardwareError::InvalidQubit(qubit));
        }
        self.last_pulse.insert(qubit, pulse);
        Ok(())
    }

    /// Reads back the experiment armed on `qubit` (see [`mock_read`]).
    pub fn read_result(&self, qubit: u8) -> (r: Result<MockReading, HardwareError>)
        ensures
            r == mock_read(self.resonances(), self.last_pulses(), qubit),
    {
        let f0 = match self.resonances.get(&qubit) {
            Some(f) => *f,
            None => {
                return Err(HardwareError::InvalidQubit(qubit));
            },
        };
        let pulse = match self.last_pulse.get(&qubit) {
            Some(p) => *p,
            None => {
                return Err(HardwareError::NotArmed);
            },
        };
        let q = qubit as u64;
        if pulse.start_ns == diagnostic::SPECTROSCOPY {
            Ok(MockReading::Spectroscopy { probe_ghz: pulse.frequency_ghz, resonance_ghz: f0 })
        } else if pulse.start_ns == diagnostic::T1 {
            Ok(MockReading::RelaxationTimeNs(55_000 + 1_500 * q))
        } else if pulse.start_ns == diagnostic::T2 {
            Ok(MockReading::DephasingTimeNs(42_000 + 1_200 * q))
        } else if pulse.start_ns == diagnostic::GATE_TUNE {
            Ok(MockReading::GateTune { qubit, duration_ns: 18 + 2 * q })
        } else {
            Err(HardwareError::NotArmed)
        }
    }
}

} // verus!
