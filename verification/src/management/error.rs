//! Failures of the application's own command handling.

use vstd::prelude::*;

verus! {

/// What the application itself can refuse.
#[derive(Debug, Clone, Copy, PartialEq, Eq, Structural)]
pub enum Error {
    /// The input carries no recognizable container signature.
    NotFoundSubscribe,
}

} // verus!
