//! The secure random source that salt generation draws from.

use vstd::prelude::*;
use crate::derive_key::error::StandardError;

verus! {

/// Relies on getrandom::fill: on success every byte of the buffer has been
/// overwritten from the system's random source; on failure nothing is
/// promised of the contents. Either way the length is untouched.
#[verifier::external_body]
pub fn fill_random(buf: &mut Vec<u8>) -> (r: Result<(), StandardError>)
    ensures
        final(buf)@.len() == old(buf)@.len(),
        r matches Err(e) ==> e is RandomFailed,
{
    match getrandom::fill(buf.as_mut_slice()) {
        Ok(()) => Ok(()),
        Err(_) => Err(StandardError::RandomFailed),
    }
}

} // verus!
