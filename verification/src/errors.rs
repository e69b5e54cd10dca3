//! The failures that the library reports.

use vstd::prelude::*;

verus! {

/// Why an operation was refused. Every variant is a fault in the shape of
/// the input, found before any group operation is made.
#[derive(Clone, Copy, Debug, PartialEq, Eq, Structural)]
pub enum CredentialError {
    /// The number of attributes differs from the number the key was made for.
    UnsupportedNoOfMessages { expected: usize, given: usize },
    /// The attribute vector is empty, so it has no slot for the user secret.
    MissingUserSecret,
    /// An index to reveal does not name an attribute.
    BadIndex { index: usize, bound: usize },
    /// The blinding factors supplied are not one per hidden attribute.
    WrongBlindingCount { blindings: usize, hidden: usize },
    /// A proof of knowledge was given bases and exponents of unequal number.
    UnequalNoOfBasesExponents { bases: usize, exponents: usize },
    /// The threshold is zero or exceeds the number of signers.
    BadThreshold { threshold: usize, total: usize },
    /// Fewer shares than the threshold were supplied.
    NotEnoughShares { threshold: usize, given: usize },
    /// Two shares carry the same signer id.
    DuplicateSigner { id: usize },
}

} // verus!
