//! The nonce: 12 bytes derived deterministically from the password and the
//! salt, stored in the header and reproduced identically on read.

use vstd::prelude::*;
use crate::digest::{sha256, sha256_of};

verus! {

/// How many bytes a nonce holds.
pub open spec fn spec_nonce_size() -> int {
    12
}

/// The nonce that a password and a salt determine: the SHA-256 digest of the
/// password's UTF-8 bytes followed by the salt bytes, truncated to 12 bytes.
pub open spec fn spec_nonce(password: Seq<char>, salt: Seq<u8>) -> Seq<u8> {
    sha256_of(vstd::utf8::encode_utf8(password) + salt).subrange(0, spec_nonce_size())
}

/// A container's nonce: exactly 12 bytes.
#[derive(Debug)]
pub struct StandardNonce(pub Vec<u8>);

impl View for StandardNonce {
    type V = Seq<u8>;

    open spec fn view(&self) -> Seq<u8> {
        self.0@
    }
}

impl Clone for StandardNonce {
    fn clone(&self) -> (r: Self)
        ensures
            r@ == self@,
    {
        StandardNonce(vstd::slice::slice_to_vec(self.0.as_slice()))
    }
}

impl StandardNonce {
    /// A well-formed nonce holds exactly 12 bytes.
    pub open spec fn wf(&self) -> bool {
        self@.len() == spec_nonce_size()
    }

    /// Derives the nonce from a password and a salt. This is a pure
    /// function of its inputs: the same password and salt always give the
    /// same nonce, and the derivation itself cannot fail.
    pub fn generate(password: &str, salt: &[u8]) -> (r: Result<StandardNonce, super::error::StandardError>)
        ensures
            r matches Ok(n) && n@ == spec_nonce(password@, salt@),
            r matches Ok(n) && n.wf(),
    {
        let mut data: Vec<u8> = vstd::slice::slice_to_vec(password.as_bytes());
        crate::buffer::append_bytes(&mut data, salt);
        let hash = sha256(data.as_slice());
        let value = crate::buffer::copy_range(hash.as_slice(), 0, 12);
        Ok(StandardNonce(value))
    }

    /// The stored nonce bytes.
    pub fn as_bytes(&self) -> (r: &[u8])
        ensures
            r@ == self@,
    {
        self.0.as_slice()
    }

    /// Reconstructs a nonce from exactly 12 stored bytes.
    pub fn from_bytes(bytes: &[u8]) -> (r: Result<StandardNonce, super::error::StandardError>)
        requires
            bytes@.len() == spec_nonce_size(),
        ensures
            r matches Ok(n) && n@ == bytes@,
    {
        Ok(StandardNonce(vstd::slice::slice_to_vec(bytes)))
    }
}

/// Nonce determinism: the nonce is a pure function of the password and the
/// salt, so two derivations from identical inputs yield identical bytes.
pub proof fn lemma_nonce_deterministic(password: Seq<char>, salt: Seq<u8>, n1: Seq<u8>, n2: Seq<u8>)
    requires
        n1 == spec_nonce(password, salt),
        n2 == spec_nonce(password, salt),
    ensures
        n1 == n2,
{
}

} // verus!
