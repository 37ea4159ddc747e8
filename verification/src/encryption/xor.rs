//! The repeating-key XOR stream cipher.

use vstd::prelude::*;

verus! {

/// One pass of the repeating-key XOR transform: each byte is combined with
/// the key byte at its index modulo the key length. An empty key leaves the
/// data unchanged.
pub open spec fn xor_with_key(data: Seq<u8>, key: Seq<u8>) -> Seq<u8> {
    if key.len() == 0 {
        data
    } else {
        Seq::new(data.len(), |i: int| data[i] ^ key[i % (key.len() as int)])
    }
}

/// A repeating-key XOR cipher over the stored key bytes.
#[derive(Debug)]
pub struct XorEncryption {
    pub key: Vec<u8>,
}

impl XorEncryption {
    /// Builds the cipher from its key bytes.
    pub fn new(key: Vec<u8>) -> (r: XorEncryption)
        ensures
            r.key@ == key@,
    {
        XorEncryption { key }
    }

    /// Encrypts the buffer in place: byte-wise XOR against the key, repeated
    /// with wraparound over the key length.
    pub fn encode(&self, buf: &mut Vec<u8>)
        ensures
            final(buf)@ == xor_with_key(old(buf)@, self.key@),
    {
        self.transform(buf)
    }

    /// Decrypts the buffer in place; XOR is its own inverse, so this is the
    /// same transform as encoding.
    pub fn decode(&self, buf: &mut Vec<u8>)
        ensures
            final(buf)@ == xor_with_key(old(buf)@, self.key@),
    {
        self.transform(buf)
    }

    fn transform(&self, buf: &mut Vec<u8>)
        ensures
            final(buf)@ == xor_with_key(old(buf)@, self.key@),
    {
        let key_len = self.key.len();
        if key_len == 0 {
            return;
        }
        let mut i: usize = 0;
        while i < buf.len()
            invariant
                0 < key_len == self.key@.len(),
                i <= buf@.len(),
                buf@.len() == old(buf)@.len(),
                forall|j: int|
                    0 <= j < i ==> buf@[j] == (old(buf)@[j] ^ self.key@[j % (key_len as int)]),
                forall|j: int| i <= j < buf@.len() ==> buf@[j] == old(buf)@[j],
            decreases buf@.len() - i,
        {
            let b = buf[i];
            let k = self.key[i % key_len];
            buf[i] = b ^ k;
            i += 1;
        }
        assert(buf@ =~= xor_with_key(old(buf)@, self.key@));
    }
}

/// Round-trip law of the stream cipher: applying the transform twice with one
/// key restores the original bytes, whatever the payload and the key.
pub proof fn lemma_xor_roundtrip(data: Seq<u8>, key: Seq<u8>)
    ensures
        xor_with_key(xor_with_key(data, key), key) == data,
{
    if key.len() > 0 {
        let once = xor_with_key(data, key);
        let twice = xor_with_key(once, key);
        assert forall|i: int| 0 <= i < data.len() implies twice[i] == data[i] by {
            let d = data[i];
            let k = key[i % (key.len() as int)];
            assert((d ^ k) ^ k == d) by (bit_vector);
        }
        assert(twice =~= data);
    }
}

/// Empty-key guard: with a zero-length key the transform is the identity, so
/// a cipher built from an empty key leaves every buffer unchanged.
pub proof fn lemma_empty_key_identity(data: Seq<u8>)
    ensures
        xor_with_key(data, Seq::<u8>::empty()) == data,
{
}

} // verus!
