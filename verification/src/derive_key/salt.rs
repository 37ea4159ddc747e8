//! The salt: 16 random bytes drawn once per prepare operation and persisted
//! verbatim in the header.

use vstd::prelude::*;

verus! {

/// How many bytes a salt holds.
pub open spec fn spec_salt_size() -> int {
    16
}

/// A container's salt: exactly 16 opaque bytes.
#[derive(Debug)]
pub struct StandardSalt {
    value: Vec<u8>,
}

impl View for StandardSalt {
    type V = Seq<u8>;

    closed spec fn view(&self) -> Seq<u8> {
        self.value@
    }
}

impl Clone for StandardSalt {
    fn clone(&self) -> (r: Self)
        ensures
            r@ == self@,
    {
        StandardSalt { value: vstd::slice::slice_to_vec(self.value.as_slice()) }
    }
}

/// The salt could not be generated or has the wrong size.
#[derive(Debug, Clone, Copy, PartialEq, Eq, Structural)]
pub struct SaltError;

impl StandardSalt {
    /// A well-formed salt holds exactly 16 bytes.
    pub open spec fn wf(&self) -> bool {
        self@.len() == spec_salt_size()
    }

    /// Draws a fresh salt from the secure random source; fails only when
    /// that source does.
    pub fn generate() -> (r: Result<StandardSalt, SaltError>)
        ensures
            r matches Ok(s) ==> s.wf(),
    {
        let mut value: Vec<u8> = vec![0u8; 16];
        match crate::random::fill_random(&mut value) {
            Ok(()) => Ok(StandardSalt { value }),
            Err(_) => Err(SaltError),
        }
    }

    /// Reconstructs a salt from stored bytes; any length but 16 is rejected.
    pub fn from_bytes(bytes: &[u8]) -> (r: Result<StandardSalt, SaltError>)
        ensures
            bytes@.len() == spec_salt_size() <==> (r matches Ok(s) && s@ == bytes@),
            bytes@.len() != spec_salt_size() <==> r matches Err(SaltError),
    {
        if bytes.len() != 16 {
            return Err(SaltError);
        }
        Ok(StandardSalt { value: vstd::slice::slice_to_vec(bytes) })
    }

    /// The stored salt bytes.
    pub fn as_bytes(&self) -> (r: &[u8])
        ensures
            r@ == self@,
    {
        self.value.as_slice()
    }
}

} // verus!
