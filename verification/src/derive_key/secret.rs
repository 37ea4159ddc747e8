//! The secret: raw password bytes, held only in memory.

use vstd::prelude::*;

verus! {

/// The user-supplied password as raw bytes.
#[derive(Debug)]
pub struct StandardKey(pub Vec<u8>);

impl View for StandardKey {
    type V = Seq<u8>;

    open spec fn view(&self) -> Seq<u8> {
        self.0@
    }
}

impl StandardKey {
    /// Takes a password and keeps its UTF-8 bytes.
    pub fn new(k: String) -> (r: StandardKey)
        ensures
            r@ == vstd::utf8::encode_utf8(k@),
    {
        StandardKey(vstd::slice::slice_to_vec(k.as_str().as_bytes()))
    }

    /// The raw secret bytes.
    pub fn as_bytes(&self) -> (r: &[u8])
        ensures
            r@ == self@,
    {
        self.0.as_slice()
    }
}

} // verus!
