//! Automated calibration and control for gate-based superconducting qubits, in the
//! manner of a hospital monitoring system: calibration measurements are the vital
//! signs, automated responses handle known conditions, and humans are paged only when
//! automation cannot recover.
//!
//! This crate holds the decision logic of that system, each piece with its contract:
//! - [`schedule`]: when a recalibration is due (periodic, cold start, chip swap);
//! - [`controller`]: the synchronous controller that applies that policy;
//! - [`health`]: thresholds, drift warnings and escalation after repeated failure;
//! - [`parameter_store`]: last known good parameters per qubit with a generation count;
//! - [`pulse`]: pulse schedules and temporal conflict detection;
//! - [`calibration`]: report types and the per-qubit report rules;
//! - [`routines`]: the per-qubit calibration run as a state machine;
//! - [`hardware`]: the hardware error and measurement types and the mock line state;
//! - [`drift_predictor`]: the rolling frequency history per qubit;
//! - [`ml_models`]: the forecast model error type.
//!
//! Floating-point values cross the library as [`float_bits::F64Bits`]: the IEEE-754
//! bit pattern of a binary64 value, carried unchanged and never computed on here.

pub mod calibration;
pub mod controller;
pub mod drift_predictor;
pub mod float_bits;
pub mod hardware;
pub mod health;
pub mod ml_models;
pub mod parameter_store;
pub mod pulse;
pub mod routines;
pub mod schedule;
pub mod stable_order;
pub mod text;
