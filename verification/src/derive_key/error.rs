//! Failures of key derivation.

use vstd::prelude::*;

verus! {

/// What can go wrong while deriving a key or its parameters.
#[derive(Debug, Clone, Copy, PartialEq, Eq, Structural)]
pub enum StandardError {
    /// A buffer or input value has the wrong length.
    LengthMismatch,
    /// The secure random source failed.
    RandomFailed,
}

} // verus!
