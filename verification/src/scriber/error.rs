//! Failures of header serialization and parsing.

use vstd::prelude::*;
use crate::derive_key::error::StandardError;
use crate::derive_key::salt::SaltError;

verus! {

/// What can go wrong when parsing a container header.
#[derive(Debug, Clone, Copy, PartialEq, Eq, Structural)]
pub enum Error {
    /// The buffer does not open with the magic tag.
    NotFoundSubscribe,
    /// The buffer is shorter than a header.
    ExcessError,
    /// The stored content-format byte is outside its closed set.
    FormatError(crate::resource_type::error::Error),
    /// The stored cipher byte is outside its closed set.
    CipherError(crate::encryption::error::Error),
    /// The stored salt could not be reconstructed.
    SaltError(SaltError),
    /// The stored nonce could not be reconstructed.
    NonceError(StandardError),
}

} // verus!
