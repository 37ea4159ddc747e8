//! The closed registry of cipher formats and the concrete ciphers it builds.

use vstd::prelude::*;
use crate::encryption::xor::XorEncryption;

pub mod error;
pub mod xor;

verus! {

/// The closed set of cipher formats a container can record: the repeating-key
/// XOR stream cipher, or the recognized-but-unusable sentinel.
#[derive(Debug, Clone, Copy, PartialEq, Eq, Structural)]
pub enum CryptoFormat {
    XOR,
    NoneCipher,
}

/// The byte identifier under which a cipher format is stored in a header.
pub open spec fn spec_cipher_byte(c: CryptoFormat) -> u8 {
    match c {
        CryptoFormat::XOR => 1,
        CryptoFormat::NoneCipher => 0,
    }
}

/// Whether a stored byte names a cipher format of the closed set.
pub open spec fn spec_cipher_byte_valid(byte: u8) -> bool {
    byte == 0 || byte == 1
}

/// The cipher format a stored byte names; meaningful only when the byte is valid.
pub open spec fn spec_cipher_of_byte(byte: u8) -> CryptoFormat {
    if byte == 1 {
        CryptoFormat::XOR
    } else {
        CryptoFormat::NoneCipher
    }
}

impl CryptoFormat {
    /// Serializes this cipher format as its one-byte identifier.
    pub fn to_byte(&self) -> (r: u8)
        ensures
            r == spec_cipher_byte(*self),
    {
        match self {
            CryptoFormat::XOR => 1,
            CryptoFormat::NoneCipher => 0,
        }
    }

    /// Reads a cipher format back from its one-byte identifier; any byte
    /// outside the closed set is rejected.
    pub fn from_byte(byte: u8) -> (r: Result<CryptoFormat, error::Error>)
        ensures
            spec_cipher_byte_valid(byte) <==> (r matches Ok(c) && c == spec_cipher_of_byte(byte)),
            !spec_cipher_byte_valid(byte) <==> r matches Err(error::Error::BrokenByteEncryption),
    {
        match byte {
            1 => Ok(CryptoFormat::XOR),
            0 => Ok(CryptoFormat::NoneCipher),
            _ => Err(error::Error::BrokenByteEncryption),
        }
    }

    /// Builds the concrete cipher this format names from the given key bytes.
    /// The sentinel format can never be built.
    pub fn build(&self, key: &[u8]) -> (r: Result<EncryptionRealisation, error::Error>)
        ensures
            *self is XOR <==> (r matches Ok(e) && e->XORRealisation_0.key@ == key@),
            *self is NoneCipher <==> r matches Err(error::Error::NoneExistEncryption),
    {
        match self {
            CryptoFormat::XOR => Ok(
                EncryptionRealisation::XORRealisation(XorEncryption { key: vstd::slice::slice_to_vec(key) }),
            ),
            CryptoFormat::NoneCipher => Err(error::Error::NoneExistEncryption),
        }
    }
}

/// Byte-identifier closure for the cipher registry: reading a format's own
/// identifier back always yields that format.
pub proof fn lemma_cipher_byte_roundtrip(c: CryptoFormat)
    ensures
        spec_cipher_byte_valid(spec_cipher_byte(c)),
        spec_cipher_of_byte(spec_cipher_byte(c)) == c,
{
}

/// A built cipher: one tagged variant per cipher the registry can produce.
#[derive(Debug)]
pub enum EncryptionRealisation {
    XORRealisation(XorEncryption),
}

/// The key material from which a concrete cipher is assembled directly.
pub enum Key {
    Xor(XorEncryption),
}

impl EncryptionRealisation {
    /// Wraps ready key material as a built cipher.
    pub fn new(key: Key) -> (r: EncryptionRealisation)
        ensures
            key matches Key::Xor(k) ==> r matches EncryptionRealisation::XORRealisation(e) && e.key@ == k.key@,
    {
        match key {
            Key::Xor(k) => EncryptionRealisation::XORRealisation(k),
        }
    }

    /// Encrypts the buffer in place with the underlying cipher.
    pub fn encode(&self, buf: &mut Vec<u8>)
        ensures
            final(buf)@ == xor::xor_with_key(old(buf)@, self->XORRealisation_0.key@),
    {
        match self {
            EncryptionRealisation::XORRealisation(e) => e.encode(buf),
        }
    }

    /// Decrypts the buffer in place; for the XOR stream cipher this is the
    /// same transform as encoding.
    pub fn decode(&self, buf: &mut Vec<u8>)
        ensures
            final(buf)@ == xor::xor_with_key(old(buf)@, self->XORRealisation_0.key@),
    {
        match self {
            EncryptionRealisation::XORRealisation(e) => e.decode(buf),
        }
    }
}

} // verus!
