//! The application-level error: every failure of a pipeline step, wrapped
//! one level with its origin preserved.

use vstd::prelude::*;

verus! {

/// All the ways one run of the command pipeline can fail, by origin.
#[derive(Debug, Clone, Copy, PartialEq, Eq, Structural)]
pub enum Error {
    /// The application itself refused the command.
    Application(crate::management::error::Error),
    /// Writing to the output resource failed.
    WriterError(crate::router::error::Error),
    /// Reading from the input resource failed.
    ReaderError(crate::router::error::Error),
    /// The router could not reach its resource.
    RouterError(crate::router::error::Error),
    /// The resource itself could not be opened or used.
    ResourceAbstractionError(crate::path::error::Error),
    /// The path to a resource was unusable.
    ResourcePathError(crate::path::error::Error),
    /// The content of the resource could not be classified.
    ResourceTypeListError(crate::resource_type::error::Error),
    /// The container header was missing or malformed.
    HeaderError(crate::scriber::error::Error),
    /// The stored content-format identifier was unusable.
    FormatListError(crate::resource_type::error::Error),
    /// The requested cipher could not be built.
    EncryptionListError(crate::encryption::error::Error),
    /// Key derivation failed.
    KDFError(crate::derive_key::error::StandardError),
    /// Nonce derivation failed.
    NonceError(crate::derive_key::error::StandardError),
    /// Salt generation failed.
    SaltError(crate::derive_key::salt::SaltError),
}

} // verus!
