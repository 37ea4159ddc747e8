//! Failures of the cipher registry.

use vstd::prelude::*;

verus! {

/// What can go wrong when selecting or building a cipher.
#[derive(Debug, Clone, Copy, PartialEq, Eq, Structural)]
pub enum Error {
    /// The sentinel cipher format was asked to build a cipher.
    NoneExistEncryption,
    /// A stored byte names no cipher format of the closed set.
    BrokenByteEncryption,
    /// The data handed to a cipher was unusable.
    IncorectDataEncryption,
}

} // verus!
