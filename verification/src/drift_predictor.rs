//! Rolling frequency history per qubit, the data that drift prediction learns from.
use std::collections::HashMap;
use vstd::prelude::*;

use crate::float_bits::F64Bits;

verus! {

broadcast use vstd::std_specs::hash::group_hash_axioms;

/// The most observations kept per qubit; older ones are dropped first.
pub const MAX_WINDOW: usize = 20;

/// One historical data point: a frequency measurement at a point in time.
#[derive(Clone, Copy, Debug, PartialEq, Eq, Structural)]
pub struct FrequencyObservation {
    /// Seconds since epoch or since a monotonic lab clock origin.
    pub timestamp_secs: F64Bits,
    pub frequency_ghz: F64Bits,
}

/// The history after recording `obs`: `obs` appended, and the oldest observation dropped
/// when that makes the history longer than [`MAX_WINDOW`].
pub open spec fn windowed_push(history: Seq<FrequencyObservation>, obs: FrequencyObservation) -> Seq<FrequencyObservation> {
    let pushed = history.push(obs);
    if pushed.len() > MAX_WINDOW {
        pushed.subrange(1, pushed.len() as int)
    } else {
        pushed
    }
}

/// The last [`MAX_WINDOW`] observations of `all` (all of them when there are fewer).
pub open spec fn latest_window(all: Seq<FrequencyObservation>) -> Seq<FrequencyObservation> {
    if all.len() > MAX_WINDOW {
        all.subrange(all.len() - MAX_WINDOW, all.len() as int)
    } else {
        all
    }
}

/// Recording keeps exactly the most recent observations: a history that holds the latest
/// window of everything observed so far holds, after recording one more observation, the
/// latest window of everything observed including it.
pub proof fn lemma_history_is_latest_window(all: Seq<FrequencyObservation>, obs: FrequencyObservation)
    ensures
        windowed_push(latest_window(all), obs) == latest_window(all.push(obs)),
{
    assert(windowed_push(latest_window(all), obs) =~= latest_window(all.push(obs)));
}

/// Fleet-level rolling frequency histories, with the drift tolerance they are judged by.
#[derive(Debug)]
pub struct PredictiveDriftDetector {
    /// Largest acceptable drift, in GHz.
    pub tolerance_ghz: F64Bits,
    histories: HashMap<u8, Vec<FrequencyObservation>>,
}

impl PredictiveDriftDetector {
    /// The drift tolerance, in GHz.
    pub closed spec fn tolerance(&self) -> F64Bits {
        self.tolerance_ghz
    }

    /// The qubits that have a history.
    pub closed spec fn tracked_qubits(&self) -> Set<u8> {
        self.histories@.dom()
    }

    /// The history of `qubit`, oldest first (empty for an untracked qubit).
    pub closed spec fn history(&self, qubit: u8) -> Seq<FrequencyObservation> {
        if self.histories@.contains_key(qubit) {
            self.histories@[qubit]@
        } else {
            Seq::empty()
        }
    }

    /// No history is longer than [`MAX_WINDOW`].
    pub open spec fn wf(&self) -> bool {
        forall|q: u8| #[trigger] self.history(q).len() <= MAX_WINDOW
    }

    /// A detector with tolerance `tolerance_ghz` and no history.
    pub fn new(tolerance_ghz: F64Bits) -> (d: Self)
        ensures
            d.tolerance() == tolerance_ghz,
            d.tracked_qubits() == Set::<u8>::empty(),
            forall|q: u8| #[trigger] d.history(q) == Seq::<FrequencyObservation>::empty(),
            d.wf(),
    {
        let d = PredictiveDriftDetector { tolerance_ghz, histories: HashMap::new() };
        assert(d.tracked_qubits() =~= Set::<u8>::empty());
        d
    }

    /// Appends an observation to the history of `qubit_id`, dropping the oldest one when
    /// the history would exceed [`MAX_WINDOW`].
    pub fn record_observation(&mut self, qubit_id: u8, frequency_ghz: F64Bits, timestamp_secs: F64Bits)
        ensures
            final(self).tolerance() == old(self).tolerance(),
            final(self).tracked_qubits() == old(self).tracked_qubits().insert(qubit_id),
            final(self).history(qubit_id) == windowed_push(
                old(self).history(qubit_id),
                FrequencyObservation { timestamp_secs, frequency_ghz },
            ),
            forall|q: u8| q != qubit_id ==> #[trigger] final(self).history(q) == old(self).history(q),
            old(self).wf() ==> final(self).wf(),
    {
        let ghost old_map = self.histories@;
        let mut history = match self.histories.remove(&qubit_id) {
            Some(h) => h,
            None => Vec::new(),
        };
        assert(history@ == old(self).history(qubit_id));
        let obs = FrequencyObservation { timestamp_secs, frequency_ghz };
        history.push(obs);
        if history.len() > MAX_WINDOW {
            let ghost pushed = history@;
            history.remove(0);
            assert(history@ =~= pushed.subrange(1, pushed.len() as int));
        }
        self.histories.insert(qubit_id, history);
        assert(self.tracked_qubits() =~= old(self).tracked_qubits().insert(qubit_id));
        assert forall|q: u8| q != qubit_id implies #[trigger] self.history(q) == old(self).history(q) by {
            assert(self.histories@.contains_key(q) == old_map.contains_key(q));
        }
    }

    /// The history of every tracked qubit.
    pub fn histories(&self) -> (h: &HashMap<u8, Vec<FrequencyObservation>>)
        ensures
            h@.dom() == self.tracked_qubits(),
            forall|q: u8| #[trigger] h@.contains_key(q) ==> h@[q]@ == self.history(q),
    {
        &self.histories
    }
}

} // verus!
