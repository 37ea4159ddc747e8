//! Key derivation: a single SHA-256 pass over the secret and the salt,
//! truncated to the requested key length.

use vstd::prelude::*;
use crate::digest::{sha256, sha256_of};

pub mod error;
pub mod nonce;
pub mod salt;
pub mod secret;

verus! {

/// The derived key: the first `len` bytes of the SHA-256 digest of the
/// secret's bytes followed by the salt's bytes. The nonce is carried by the
/// deriver but plays no part in the key bytes.
pub open spec fn spec_derived_key(secret: Seq<u8>, salt: Seq<u8>, len: int) -> Seq<u8> {
    sha256_of(secret + salt).subrange(0, len)
}

/// The key deriver: holds the secret, the salt and the nonce, and writes
/// keys of length `L` (at most the hash's native 32 bytes).
#[derive(Debug)]
pub struct StandardKdf<const L: usize> {
    pub params: (),
    pub salt: salt::StandardSalt,
    pub secret: secret::StandardKey,
    pub nonce: nonce::StandardNonce,
}

impl<const L: usize> StandardKdf<L> {
    /// Assembles a deriver from its parts. The unit parameter block is kept
    /// so that every derivation scheme is built with the same shape of call.
    pub fn new(
        secret: secret::StandardKey,
        _params: (),
        salt: salt::StandardSalt,
        nonce: nonce::StandardNonce,
    ) -> (r: StandardKdf<L>)
        ensures
            r.secret == secret,
            r.salt == salt,
            r.nonce == nonce,
    {
        StandardKdf { salt, secret, params: (), nonce }
    }

    /// Fills the buffer with the derived key. Fails with a length mismatch
    /// when the buffer is not exactly `L` bytes long, or when `L` exceeds the
    /// hash's native 32-byte output; the buffer is then left unchanged.
    pub fn derive_key(&self, buffer: &mut Vec<u8>) -> (r: Result<(), error::StandardError>)
        ensures
            (old(buffer)@.len() == L && L <= 32) <==> r is Ok,
            r is Ok ==> final(buffer)@ == spec_derived_key(self.secret@, self.salt@, L as int),
            r is Err ==> (r matches Err(error::StandardError::LengthMismatch)
                && final(buffer)@ == old(buffer)@),
    {
        if buffer.len() != L {
            return Err(error::StandardError::LengthMismatch);
        }
        if L > 32 {
            return Err(error::StandardError::LengthMismatch);
        }
        let mut data: Vec<u8> = Vec::new();
        crate::buffer::append_bytes(&mut data, self.secret.as_bytes());
        crate::buffer::append_bytes(&mut data, self.salt.as_bytes());
        proof {
            assert(data@ =~= self.secret@ + self.salt@);
        }
        let hash = sha256(data.as_slice());
        let key = crate::buffer::copy_range(hash.as_slice(), 0, L);
        buffer.clear();
        crate::buffer::append_bytes(buffer, key.as_slice());
        proof {
            assert(buffer@ =~= spec_derived_key(self.secret@, self.salt@, L as int));
        }
        Ok(())
    }
}

} // verus!
