//! Identifiers of programs, assets and accounts.
//!
//! The host addresses every program, asset and account by a 32-byte
//! identifier.  The library holds such an identifier as two 128-bit words
//! (the little-endian halves of the 32 bytes), so that equality of
//! identifiers is plain field equality.

use vstd::prelude::*;

verus! {

/// A 32-byte identifier, split into two 128-bit words.
#[derive(Clone, Copy, Debug, PartialEq, Eq, Structural)]
pub struct ProgramId {
    /// The first 16 bytes, as a little-endian word.
    pub lo: u128,
    /// The last 16 bytes, as a little-endian word.
    pub hi: u128,
}

impl ProgramId {
    /// The all-zero identifier; it stands for "no program".
    pub fn zero() -> (r: ProgramId)
        ensures
            r == ProgramId::spec_zero(),
    {
        ProgramId { lo: 0, hi: 0 }
    }

    /// The all-zero identifier, in specifications.
    pub open spec fn spec_zero() -> ProgramId {
        ProgramId { lo: 0, hi: 0 }
    }

    /// Whether this identifier is the all-zero one.
    pub fn is_zero(&self) -> (r: bool)
        ensures
            r == (*self == ProgramId::spec_zero()),
    {
        self.lo == 0 && self.hi == 0
    }
}

} // verus!
