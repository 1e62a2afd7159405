//! Floating-point values carried through the library by their bit pattern.
use vstd::prelude::*;

verus! {

/// The IEEE-754 binary64 bit pattern of a floating-point quantity (a frequency in
/// GHz, a fidelity, a time stamp in seconds).
///
/// The library never computes on such a value: it stores, copies and hands it back
/// unchanged, so every conversion to and from `f64` is lossless.
#[derive(Clone, Copy, Debug, PartialEq, Eq, Structural)]
pub struct F64Bits(pub u64);

} // verus!
