//! Failures of routing reads and writes to their paths.

use vstd::prelude::*;

verus! {

/// What can go wrong when the router resolves or uses its paths.
#[derive(Debug, Clone, Copy, PartialEq, Eq, Structural)]
pub enum Error {
    /// The path behind an operation was unusable.
    ResourcePathError(crate::path::error::Error),
    /// The read on the freshly opened input failed.
    ReaderError,
    /// The write on the freshly created output failed.
    WriterError,
    /// A write was requested but no output path was configured.
    BadWriteError,
}

} // verus!
