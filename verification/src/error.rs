//! Why an operation was refused.

use vstd::prelude::*;

verus! {

/// Every way an invocation can fail. A failed invocation leaves all state as it was.
#[derive(Clone, Copy, Debug, PartialEq, Eq, Structural)]
pub enum TokenError {
    /// The caller is not the identity the operation requires.
    Unauthorized,
    /// An amount that is zero or negative was supplied.
    InvalidAmount,
    /// A transfer asked for more than the sender holds.
    InsufficientBalance,
    /// The result would not fit the 128-bit signed range.
    Overflow,
    /// A once-only initialization was attempted a second time.
    AlreadyInitialized,
    /// Ownership was accepted while no candidate was proposed.
    NoPendingTransfer,
}

} // verus!
