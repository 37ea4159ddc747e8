//! The path to a resource, validated against what the filesystem reported
//! about it.
//!
//! The library never touches the filesystem itself: the caller probes the
//! entry behind the path and hands the result in as a [`PathProbe`]; the
//! validation rules that decide whether the path is usable for an operation
//! are verified here.

use vstd::prelude::*;
use crate::abstraction::Operation;

pub mod error;

verus! {

/// What the filesystem reported about the entry behind a path.
#[derive(Debug, Clone, Copy, PartialEq, Eq, Structural)]
pub enum PathProbe {
    /// The entry exists and is a regular file.
    IsFile,
    /// The entry exists but is not a regular file.
    IsOtherEntry,
    /// No entry exists behind the path.
    Missing,
    /// The probe itself failed.
    ProbeFailed,
}

/// Whether a probe result lets a path be used for an operation: an existing
/// regular file serves every operation; a missing entry serves only
/// creation; anything else serves none.
pub open spec fn spec_path_usable(probe: PathProbe, op: Operation) -> bool {
    match probe {
        PathProbe::IsFile => true,
        PathProbe::Missing => op is Create,
        PathProbe::IsOtherEntry => false,
        PathProbe::ProbeFailed => false,
    }
}

/// The error a probe result maps to when the path is not usable.
pub open spec fn spec_path_error(probe: PathProbe, op: Operation) -> error::Error {
    match probe {
        PathProbe::IsOtherEntry => error::Error::NotAFile,
        PathProbe::Missing => error::Error::NotFound,
        _ => error::Error::ProbeFailed,
    }
}

/// A validated path to a file resource.
#[derive(Debug)]
pub struct FilePath {
    path: String,
}

impl FilePath {
    /// The path text.
    pub closed spec fn spec_path(&self) -> Seq<char> {
        self.path@
    }

    /// Validates a path for an operation, given what the filesystem
    /// reported about the entry behind it. Opening or truncating requires
    /// an existing regular file; creating also accepts a missing entry.
    pub fn new(path: String, op: Operation, probe: PathProbe) -> (r: Result<FilePath, error::Error>)
        ensures
            spec_path_usable(probe, op) <==> (r matches Ok(p) && p.spec_path() == path@),
            !spec_path_usable(probe, op) <==> (r matches Err(e) && e == spec_path_error(probe, op)),
    {
        match probe {
            PathProbe::IsFile => Ok(FilePath { path }),
            PathProbe::Missing => {
                match op {
                    Operation::Create => Ok(FilePath { path }),
                    _ => Err(error::Error::NotFound),
                }
            },
            PathProbe::IsOtherEntry => Err(error::Error::NotAFile),
            PathProbe::ProbeFailed => Err(error::Error::ProbeFailed),
        }
    }

    /// The path text, for the caller that performs the actual open.
    pub fn get_path(&self) -> (r: &String)
        ensures
            r@ == self.spec_path(),
    {
        &self.path
    }
}

impl Clone for FilePath {
    fn clone(&self) -> (r: Self)
        ensures
            r.spec_path() == self.spec_path(),
    {
        FilePath { path: self.path.clone() }
    }
}

} // verus!
