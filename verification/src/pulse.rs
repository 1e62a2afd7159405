//! Experiment pulse schedules and their temporal conflict checks.
use vstd::prelude::*;

use crate::float_bits::F64Bits;
use crate::stable_order::{has_key, is_stable_sort_of, lemma_stable_insert, sorted_by_key};

verus! {

/// Two pulses on one channel whose start times lie at most this many nanoseconds apart
/// conflict.
pub const CONFLICT_WINDOW_NS: u64 = 50;

/// One pulse of an experiment schedule.
#[derive(Clone, Copy, Debug, PartialEq, Eq, Structural)]
pub struct Pulse {
    /// Control line (AWG channel) id.
    pub channel: u8,
    /// Start time in the schedule, in nanoseconds.
    pub start_ns: u64,
    /// Carrier frequency in GHz.
    pub frequency_ghz: F64Bits,
}

/// The distance between two start times.
pub open spec fn start_distance(a: u64, b: u64) -> int {
    if a >= b { a - b } else { b - a }
}

/// Two pulses conflict when they share a channel and their start times are at most
/// [`CONFLICT_WINDOW_NS`] apart.
pub open spec fn conflict(a: Pulse, b: Pulse) -> bool {
    a.channel == b.channel && start_distance(a.start_ns, b.start_ns) <= CONFLICT_WINDOW_NS
}

/// Some two distinct positions of the schedule hold conflicting pulses.
pub open spec fn has_conflicts(s: Seq<Pulse>) -> bool {
    exists|i: int, j: int| 0 <= i < j < s.len() && conflict(s[i], s[j])
}

/// The pulse at `index` conflicts with the pulse at some other position.
pub open spec fn conflicts_at(s: Seq<Pulse>, index: int) -> bool {
    exists|i: int| 0 <= i < s.len() && i != index && conflict(s[index], s[i])
}

/// The start time of a pulse, as the key schedules are ordered by.
pub open spec fn start_key() -> spec_fn(Pulse) -> int {
    |p: Pulse| p.start_ns as int
}

/// Two pulses conflict if they use the same channel and their start times are within
/// 50 ns of each other.
pub fn pulses_conflict(a: &Pulse, b: &Pulse) -> (r: bool)
    ensures
        r == conflict(*a, *b),
{
    let distance: u64 = if a.start_ns >= b.start_ns {
        a.start_ns - b.start_ns
    } else {
        b.start_ns - a.start_ns
    };
    a.channel == b.channel && distance <= CONFLICT_WINDOW_NS
}

/// Whether any two pulses of the schedule conflict (pairwise check, quadratic in the
/// length: meant for small experiment schedules).
pub fn schedule_has_conflicts(pulses: &[Pulse]) -> (r: bool)
    ensures
        r == has_conflicts(pulses@),
{
    let n = pulses.len();
    let mut i: usize = 0;
    while i < n
        invariant
            n == pulses@.len(),
            i <= n,
            forall|a: int, b: int| 0 <= a < i && a < b < n ==> !conflict(pulses@[a], pulses@[b]),
        decreases n - i,
    {
        let mut j: usize = i + 1;
        while j < n
            invariant
                n == pulses@.len(),
                i < n,
                i + 1 <= j <= n,
                forall|b: int| i < b < j ==> !conflict(pulses@[i as int], pulses@[b]),
            decreases n - j,
        {
            if pulses_conflict(&pulses[i], &pulses[j]) {
                return true;
            }
            j = j + 1;
        }
        i = i + 1;
    }
    false
}

/// Whether the pulse at `index` conflicts with any other pulse of the same schedule.
pub fn pulse_has_conflict(schedule: &[Pulse], index: usize) -> (r: bool)
    requires
        index < schedule@.len(),
    ensures
        r == conflicts_at(schedule@, index as int),
{
    let p = &schedule[index];
    let n = schedule.len();
    let mut i: usize = 0;
    while i < n
        invariant
            n == schedule@.len(),
            index < n,
            *p == schedule@[index as int],
            i <= n,
            forall|k: int| 0 <= k < i && k != index ==> !conflict(schedule@[index as int], schedule@[k]),
        decreases n - i,
    {
        if i != index && pulses_conflict(p, &schedule[i]) {
            return true;
        }
        i = i + 1;
    }
    false
}

/// The schedule ordered by start time; pulses with equal start times keep their order.
pub fn sort_pulses_by_start_ns(pulses: Vec<Pulse>) -> (sorted: Vec<Pulse>)
    ensures
        is_stable_sort_of(sorted@, pulses@, start_key()),
{
    let n = pulses.len();
    let mut out: Vec<Pulse> = Vec::new();
    let mut i: usize = 0;
    assert(out@ =~= pulses@.take(0));
    while i < n
        invariant
            n == pulses@.len(),
            i <= n,
            is_stable_sort_of(out@, pulses@.take(i as int), start_key()),
        decreases n - i,
    {
        let p = pulses[i];
        let mut pos: usize = out.len();
        while pos > 0 && out[pos - 1].start_ns > p.start_ns
            invariant
                pos <= out@.len(),
                sorted_by_key(out@, start_key()),
                forall|j: int| pos <= j < out@.len() ==> out@[j].start_ns > p.start_ns,
            decreases pos,
        {
            pos = pos - 1;
        }
        proof {
            assert forall|j: int| 0 <= j < pos implies out@[j].start_ns <= p.start_ns by {
                assert(start_key()(out@[j]) <= start_key()(out@[pos - 1]));
            }
            lemma_stable_insert(out@, pos as int, p, start_key());
            assert(pulses@.take(i + 1) == pulses@.take(i as int).push(p));
        }
        let ghost before = out@;
        out.insert(pos, p);
        proof {
            let prefix = pulses@.take(i as int);
            assert forall|k: int|
                #[trigger] out@.filter(has_key(start_key(), k)) == pulses@.take(i + 1).filter(
                    has_key(start_key(), k),
                ) by {
                prefix.lemma_filter_push(p, has_key(start_key(), k));
                assert(before.filter(has_key(start_key(), k)) == prefix.filter(
                    has_key(start_key(), k),
                ));
            }
        }
        i = i + 1;
    }
    assert(pulses@.take(n as int) == pulses@);
    out
}

/// Two pulses conflict exactly when they share a channel and their start times lie at
/// most 50 ns apart; their carrier frequencies play no part.
pub proof fn lemma_conflict_is_channel_and_start_window(a: Pulse, b: Pulse, fa: F64Bits, fb: F64Bits)
    ensures
        conflict(a, b) == (a.channel == b.channel && (if a.start_ns >= b.start_ns {
            a.start_ns - b.start_ns
        } else {
            b.start_ns - a.start_ns
        }) <= 50),
        conflict(a, b) == conflict(
            Pulse { frequency_ghz: fa, ..a },
            Pulse { frequency_ghz: fb, ..b },
        ),
{
}

/// Any two pulses of a schedule on one channel starting at most 50 ns apart make the
/// schedule conflicting, and make each of the two a conflicting pulse.
pub proof fn lemma_close_pulses_on_one_channel_conflict(s: Seq<Pulse>, i: int, j: int)
    requires
        0 <= i < j < s.len(),
        s[i].channel == s[j].channel,
        s[j].start_ns - s[i].start_ns <= 50,
        s[i].start_ns - s[j].start_ns <= 50,
    ensures
        has_conflicts(s),
        conflicts_at(s, i),
        conflicts_at(s, j),
{
    assert(conflict(s[i], s[j]));
    assert(conflict(s[j], s[i]));
}

/// Conflict is symmetric.
pub proof fn lemma_conflict_symmetric(a: Pulse, b: Pulse)
    ensures
        conflict(a, b) == conflict(b, a),
{
}

/// A schedule has conflicts exactly when some pulse of it conflicts with another.
pub proof fn lemma_conflicts_iff_some_pulse_conflicts(s: Seq<Pulse>)
    ensures
        has_conflicts(s) <==> exists|i: int| 0 <= i < s.len() && #[trigger] conflicts_at(s, i),
{
    if has_conflicts(s) {
        let (i, j) = choose|i: int, j: int| 0 <= i < j < s.len() && conflict(s[i], s[j]);
        assert(conflicts_at(s, i));
    }
    if exists|i: int| 0 <= i < s.len() && #[trigger] conflicts_at(s, i) {
        let i = choose|i: int| 0 <= i < s.len() && #[trigger] conflicts_at(s, i);
        let k = choose|k: int| 0 <= k < s.len() && k != i && conflict(s[i], s[k]);
        if i < k {
            assert(conflict(s[i], s[k]));
        } else {
            lemma_conflict_symmetric(s[i], s[k]);
            assert(conflict(s[k], s[i]));
        }
    }
}

} // verus!
