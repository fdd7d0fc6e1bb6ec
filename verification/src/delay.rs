//! Busy-loop millisecond delay provider.
//!
//! The provider only derives the spin count from a clock frequency; the
//! spinning itself is a timing side effect performed by the code around the
//! library, which reads the count back with [`Delay::nops_per_ms`].

use vstd::prelude::*;

verus! {

/// Delay provider struct.
pub struct Delay {
    nops_per_ms: u16,
}

impl Delay {
    /// The number of no-op spins that make up one millisecond.
    pub closed spec fn nops_per_ms_spec(self) -> u16 {
        self.nops_per_ms
    }

    /// Creates a new Delay provider for a given clock frequency in Hz:
    /// about 210 no-ops are needed per 2^20 Hz to delay 1 ms, and the
    /// count is truncated to the register width it is kept in.
    pub fn new(freq: u32) -> (d: Delay)
        ensures
            d.nops_per_ms_spec() == (210 * (freq >> 20u32)) as u16,
    {
        proof {
            assert(freq >> 20u32 < 4096) by (bit_vector);
        }
        let nops: u32 = 210 * (freq >> 20);
        Delay { nops_per_ms: #[verifier::truncate] (nops as u16) }
    }

    /// Reads the spin count back.
    pub fn nops_per_ms(&self) -> (r: u16)
        ensures
            r == self.nops_per_ms_spec(),
    {
        self.nops_per_ms
    }
}

} // verus!
