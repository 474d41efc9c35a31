//! Cycle timing of exit handling: the timestamp counter is read through a
//! `TscSource` that the platform provides (RDTSC); `rdtsc` is the stand-in
//! for builds without one, which reads as 0.
use vstd::prelude::*;

verus! {

/// Reading the host timestamp counter. Implemented by the platform (RDTSC)
/// and by test doubles.
pub trait TscSource {
    /// The current value of the timestamp counter.
    fn read_tsc(&mut self) -> u64;
}

/// A timestamp counter that always reads as 0 (timing disabled).
pub struct ZeroTsc;

impl TscSource for ZeroTsc {
    fn read_tsc(&mut self) -> (r: u64)
        ensures
            r == 0,
    {
        rdtsc()
    }
}

/// The timestamp counter; 0 in this build.
pub fn rdtsc() -> (r: u64)
    ensures
        r == 0,
{
    0
}

} // verus!
