//! Actor identifiers: opaque 128-bit values, generated fresh per spawn.

use vstd::prelude::*;

verus! {

/// An opaque handle addressing one actor for its lifetime. The value carries
/// no meaning beyond identity: it is only compared, hashed and stored.
#[derive(Clone, Copy, PartialEq, Eq, Structural, Hash, Debug)]
pub struct Pid {
    pub bits: u128,
}

impl Pid {
    /// Builds an identifier from its raw 128-bit value.
    pub fn from_bits(bits: u128) -> (r: Pid)
        ensures
            r.bits == bits,
    {
        Pid { bits }
    }

    /// The raw 128-bit value of this identifier.
    pub fn bits(&self) -> (r: u128)
        ensures
            r == self.bits,
    {
        self.bits
    }
}

/// Relies on uuid::Uuid::new_v4: draws a fresh random version-4 identifier.
/// The value depends on the process's randomness source, so nothing is
/// promised of it; the supervisor itself checks freshness against every
/// identifier it has already issued.
#[verifier::external_body]
pub(crate) fn random_pid() -> Pid {
    Pid { bits: uuid::Uuid::new_v4().as_u128() }
}

} // verus!
