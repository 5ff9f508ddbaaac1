//! Principals that hold balances and authorize operations.

use vstd::prelude::*;

verus! {

/// A principal as the host authenticates it: a 256-bit key, held as two halves.
///
/// Two identities are the same principal exactly when both halves agree.
#[derive(Clone, Copy, Debug, PartialEq, Eq, Structural, Hash)]
pub struct Identity {
    pub hi: u128,
    pub lo: u128,
}

impl Identity {
    /// The identity with the given key halves.
    pub fn new(hi: u128, lo: u128) -> (id: Identity)
        ensures
            id == (Identity { hi, lo }),
    {
        Identity { hi, lo }
    }
}

} // verus!
