//! Error kinds of the watcher's core.

use vstd::prelude::*;

verus! {

/// Failure of one sweep tick. Every kind but `Arithmetic` stands for a
/// collaborator that could not answer; `Arithmetic` marks a checked
/// overflow or underflow in the fee or amount computation and signals a
/// value outside expected bounds rather than a network fault.
#[derive(Clone, Copy, Debug, PartialEq, Eq, Structural)]
pub enum SweepError {
    /// The fee unit price could not be queried.
    FeeQuery,
    /// The sender balance could not be queried.
    BalanceQuery,
    /// Checked fee or amount arithmetic overflowed.
    Arithmetic,
    /// The transaction could not be submitted.
    Submission,
    /// The submitted transaction did not reach the confirmation depth.
    Confirmation,
}

/// The read-only blacklist predicate could not be answered this tick.
/// The monitor keeps its previous observation when it sees this.
#[derive(Clone, Copy, Debug, PartialEq, Eq, Structural)]
pub struct QueryError;

/// Fatal configuration faults, found once at load time, before any loop
/// starts. Both kinds concern an address given as text.
#[derive(Clone, Copy, Debug, PartialEq, Eq, Structural)]
pub enum LoadError {
    /// The address text does not hold exactly forty hex digits.
    AddressLength,
    /// A character of the address text is not a hex digit.
    AddressCharacter,
}

} // verus!
