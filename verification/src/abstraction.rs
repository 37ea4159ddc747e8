//! The operations a resource can be opened for, and the application-level
//! error that every failure of the pipeline is wrapped into.

use vstd::prelude::*;

pub mod error;

verus! {

/// What a resource is opened for.
#[derive(Debug, Clone, Copy, PartialEq, Eq, Structural)]
pub enum Operation {
    Open,
    Create,
    /// Open and empty the resource.
    Truncate,
}

} // verus!
