//! Failures of path validation.

use vstd::prelude::*;

verus! {

/// Why a path could not be used for the requested operation.
#[derive(Debug, Clone, Copy, PartialEq, Eq, Structural)]
pub enum Error {
    /// The entry exists but is not a regular file.
    NotAFile,
    /// No entry exists behind the path.
    NotFound,
    /// The filesystem probe itself failed.
    ProbeFailed,
}

} // verus!
