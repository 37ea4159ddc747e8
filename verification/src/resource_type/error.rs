//! Failures of the content-format registry.

use vstd::prelude::*;

verus! {

/// What can go wrong when classifying or decoding a content format.
#[derive(Debug, Clone, Copy, PartialEq, Eq, Structural)]
pub enum Error {
    /// The content's format is not supported.
    UnknowFormat,
    /// A stored byte names no content format of the closed set.
    BrokenByteFormat,
    /// The content could not be read for classification.
    ReadError,
}

} // verus!
