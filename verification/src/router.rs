//! The router: an input path and an optional output path. Every read or
//! write works on a freshly reopened resource keyed by path; the router
//! itself never holds a live handle, it only decides which path each
//! operation goes to.

use vstd::prelude::*;
use crate::path::FilePath;

pub mod error;

verus! {

/// An input location and an optional, distinct output location.
#[derive(Debug)]
pub struct Router {
    inner: FilePath,
    out: Option<FilePath>,
}

impl Router {
    /// The input path text.
    pub closed spec fn spec_inner(&self) -> Seq<char> {
        self.inner.spec_path()
    }

    /// The output path text, when one was configured.
    pub closed spec fn spec_out(&self) -> Option<Seq<char>> {
        match self.out {
            Some(p) => Some(p.spec_path()),
            None => None,
        }
    }

    /// Composes a router from an input path and an optional output path.
    pub fn new(inner: FilePath, out: Option<FilePath>) -> (r: Router)
        ensures
            r.spec_inner() == inner.spec_path(),
            match out {
                Some(p) => r.spec_out() == Some(p.spec_path()),
                None => r.spec_out() is None,
            },
    {
        Router { inner, out }
    }

    /// The path every read goes to: reads always reopen the input fresh.
    pub fn read_target(&self) -> (r: &FilePath)
        ensures
            r.spec_path() == self.spec_inner(),
    {
        &self.inner
    }

    /// The path a write goes to: the configured output, reopened fresh for
    /// creation. Fails when no output path was configured.
    pub fn write_target(&self) -> (r: Result<&FilePath, error::Error>)
        ensures
            self.spec_out() is Some <==> (r matches Ok(p) && Some(p.spec_path())
                == self.spec_out()),
            self.spec_out() is None <==> r matches Err(error::Error::BadWriteError),
    {
        match &self.out {
            Some(p) => Ok(p),
            None => Err(error::Error::BadWriteError),
        }
    }
}

} // verus!
