//! Last known good calibration parameters per qubit, with a generation count.
//!
//! A failed calibration never touches the store: an operator always finds the last
//! configuration that passed until a new success replaces it.
use std::collections::HashMap;
use vstd::prelude::*;

use crate::float_bits::F64Bits;

verus! {

broadcast use vstd::std_specs::hash::group_hash_axioms;

/// Calibrated parameters of one qubit.
#[derive(Clone, Copy, Debug, PartialEq, Eq, Structural)]
pub struct CalibrationParams {
    pub drive_frequency_ghz: F64Bits,
    pub t1_ns: u64,
    pub t2_ns: u64,
    pub pi_pulse_duration_ns: u64,
    pub single_qubit_fidelity: F64Bits,
    /// How many successful calibrations this row has seen; 0 before the first commit.
    pub generation: u64,
}

/// The generation a committed row receives, given what the store held for its qubit.
pub open spec fn next_generation(previous: Option<CalibrationParams>) -> u64 {
    match previous {
        Some(p) => if p.generation == u64::MAX { u64::MAX } else { (p.generation + 1) as u64 },
        None => 1,
    }
}

/// What the store holds after a successful calibration of `qubit` with `params`.
pub open spec fn committed(
    rows: Map<u8, CalibrationParams>,
    qubit: u8,
    params: CalibrationParams,
) -> Map<u8, CalibrationParams> {
    let previous = if rows.contains_key(qubit) { Some(rows[qubit]) } else { None };
    rows.insert(qubit, CalibrationParams { generation: next_generation(previous), ..params })
}

/// The parameter store: one row of last known good parameters per qubit.
#[derive(Debug)]
pub struct ParameterStore {
    rows: HashMap<u8, CalibrationParams>,
}

impl View for ParameterStore {
    type V = Map<u8, CalibrationParams>;

    closed spec fn view(&self) -> Map<u8, CalibrationParams> {
        self.rows@
    }
}

impl ParameterStore {
    /// An empty store.
    pub fn new() -> (store: Self)
        ensures
            store@ == Map::<u8, CalibrationParams>::empty(),
    {
        ParameterStore { rows: HashMap::new() }
    }

    /// The last known good parameters of `qubit`, if it was ever calibrated.
    pub fn get(&self, qubit: u8) -> (row: Option<CalibrationParams>)
        ensures
            row == (if self@.contains_key(qubit) { Some(self@[qubit]) } else { None }),
    {
        match self.rows.get(&qubit) {
            Some(p) => Some(*p),
            None => None,
        }
    }

    /// Records a successful calibration: the row of `qubit` becomes `params` with its
    /// generation set to the previous generation plus one (saturating), or 1 on the
    /// first success. Every other row is left as it was.
    pub fn commit_success(&mut self, qubit: u8, params: CalibrationParams)
        ensures
            final(self)@ == committed(old(self)@, qubit, params),
    {
        let previous = self.get(qubit);
        let next_gen: u64 = match previous {
            Some(p) => p.generation.saturating_add(1),
            None => 1,
        };
        let row = CalibrationParams { generation: next_gen, ..params };
        self.rows.insert(qubit, row);
    }

    /// A copy of every row, for inspection or display.
    pub fn snapshot(&self) -> (rows: HashMap<u8, CalibrationParams>)
        ensures
            rows@ == self@,
    {
        self.rows.clone()
    }
}

/// A read after a commit gives back the committed parameters, with the generation the
/// store gave them; every other qubit's row is what it was before.
pub proof fn lemma_read_after_commit(
    rows: Map<u8, CalibrationParams>,
    qubit: u8,
    params: CalibrationParams,
    other: u8,
)
    ensures
        committed(rows, qubit, params).contains_key(qubit),
        committed(rows, qubit, params)[qubit] == (CalibrationParams {
            generation: next_generation(if rows.contains_key(qubit) { Some(rows[qubit]) } else { None }),
            ..params
        }),
        other != qubit ==> committed(rows, qubit, params).contains_key(other) == rows.contains_key(other),
        other != qubit && rows.contains_key(other) ==> committed(rows, qubit, params)[other] == rows[other],
{
}

/// Each success adds one to a row's generation: the first gives 1, each later one the
/// previous generation plus one (until the count saturates). Rows are never removed.
pub proof fn lemma_generation_counts_successes(
    rows: Map<u8, CalibrationParams>,
    qubit: u8,
    params: CalibrationParams,
)
    ensures
        !rows.contains_key(qubit) ==> committed(rows, qubit, params)[qubit].generation == 1,
        rows.contains_key(qubit) && rows[qubit].generation < u64::MAX ==> committed(
            rows,
            qubit,
            params,
        )[qubit].generation == rows[qubit].generation + 1,
        rows.dom().subset_of(committed(rows, qubit, params).dom()),
{
}

} // verus!
