//! Values of `Pulse::start_ns` that tag a pulse sent to the mock hardware with the
//! experiment it arms (a simulation convention, not a statement about real hardware).
use vstd::prelude::*;

verus! {

/// Spectroscopy probe at the pulse's frequency.
pub const SPECTROSCOPY: u64 = 0;
/// T1 (relaxation) experiment.
pub const T1: u64 = 1;
/// T2 (dephasing) experiment.
pub const T2: u64 = 2;
/// Single-qubit gate calibration.
pub const GATE_TUNE: u64 = 3;

} // verus!
