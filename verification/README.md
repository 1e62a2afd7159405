# quantum_calibration

Automated calibration and control for gate-based superconducting qubits, on mock
hardware: scheduled calibration rounds, per-qubit calibration runs, a parameter store of
last known good values, and a health monitor that escalates to a human only after
repeated failure.

The library in `src/` holds the decisions, each with a Verus contract:

| module | what it decides |
|---|---|
| `schedule` | whether a recalibration is due (chip swap, cold start, periodic) |
| `controller` | the synchronous controller applying that policy |
| `health` | drift warnings, failure streaks, escalation after three failures |
| `parameter_store` | last known good parameters with a generation count |
| `pulse` | pulse conflicts and the stable ordering of schedules |
| `calibration` | crosstalk template, mock T1/T2, report assembly |
| `routines` | the per-qubit calibration run as a state machine |
| `hardware` | hardware errors, measurements, the mock electronics' state |
| `drift_predictor` | the rolling per-qubit frequency history |
| `ml_models` | the forecast model error type |

Floating-point values cross the library as `F64Bits`, their IEEE-754 bit pattern,
which the library stores and hands back but never computes on.

`app/` is the demonstration binary: Tokio tasks and locks, the async hardware trait,
the floating-point physics of the mock machine, the drift regression and forecast
models, and console output. It drives the library's state machine for each qubit.

The library is checked by Verus; the tests under `tests/` run it.
