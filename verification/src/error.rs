//! The ways an operation can be refused.

use vstd::prelude::*;

verus! {

/// Why an operation was refused. Every refusal leaves all state as it was.
#[derive(Clone, Copy, Debug, PartialEq, Eq, Structural)]
pub enum BlogError {
    /// The caller's signature is missing or invalid, or the caller is not the
    /// authority stored on the record it tries to act on.
    Authorization,
    /// The storage slot at the derived address is already occupied.
    AddressCollision,
    /// A counter would leave its representable range.
    CounterOverflow,
    /// The caller cannot fund the storage slot.
    Resource,
    /// No address can be derived for the seeds.
    AddressDerivation,
}

} // verus!
