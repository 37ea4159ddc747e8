//! The container header: a fixed 42-byte block written in front of the
//! payload, recording a magic tag, a format version, the cipher and content
//! format identifiers, the salt and the nonce.

use vstd::prelude::*;
use crate::derive_key::nonce::StandardNonce;
use crate::derive_key::salt::StandardSalt;
use crate::encryption::CryptoFormat;
use crate::resource_type::ResourceType;

pub mod error;

verus! {

/// The magic tag that opens every container: the bytes of `CRYPTO`.
pub open spec fn spec_magic() -> Seq<u8> {
    seq![67u8, 82u8, 89u8, 80u8, 84u8, 79u8]
}

/// The fixed size of a serialized header.
pub open spec fn spec_header_size() -> int {
    42
}

/// The serialized layout: magic tag, then version, cipher and format bytes
/// with five reserved zero bytes, then the salt, then the nonce.
pub open spec fn spec_header_layout(
    version: u8,
    cipher: CryptoFormat,
    format: ResourceType,
    salt: Seq<u8>,
    nonce: Seq<u8>,
) -> Seq<u8> {
    spec_magic()
        + seq![
        version,
        crate::encryption::spec_cipher_byte(cipher),
        crate::resource_type::spec_format_byte(format),
        0u8,
        0u8,
        0u8,
        0u8,
        0u8,
    ] + salt + nonce
}

/// Whether a buffer parses as a header: long enough, opened by the magic
/// tag, with stored cipher and format bytes from their closed sets.
pub open spec fn spec_parse_ok(buf: Seq<u8>) -> bool {
    &&& buf.len() >= spec_header_size()
    &&& buf.subrange(0, 6) == spec_magic()
    &&& crate::encryption::spec_cipher_byte_valid(buf[7])
    &&& crate::resource_type::spec_format_byte_valid(buf[8])
}

/// The version byte a buffer stores.
pub open spec fn spec_parsed_version(buf: Seq<u8>) -> u8 {
    buf[6]
}

/// The cipher format a buffer stores.
pub open spec fn spec_parsed_cipher(buf: Seq<u8>) -> CryptoFormat {
    crate::encryption::spec_cipher_of_byte(buf[7])
}

/// The content format a buffer stores.
pub open spec fn spec_parsed_format(buf: Seq<u8>) -> ResourceType {
    crate::resource_type::spec_format_of_byte(buf[8])
}

/// The salt bytes a buffer stores.
pub open spec fn spec_parsed_salt(buf: Seq<u8>) -> Seq<u8> {
    buf.subrange(14, 30)
}

/// The nonce bytes a buffer stores.
pub open spec fn spec_parsed_nonce(buf: Seq<u8>) -> Seq<u8> {
    buf.subrange(30, 42)
}

/// The error parsing a buffer fails with when it does not parse as a
/// header: the length is checked first, then the magic tag, then the stored
/// cipher byte, then the stored format byte.
pub open spec fn spec_parse_error(buf: Seq<u8>) -> error::Error {
    if buf.len() < spec_header_size() {
        error::Error::ExcessError
    } else if buf.subrange(0, 6) != spec_magic() {
        error::Error::NotFoundSubscribe
    } else if !crate::encryption::spec_cipher_byte_valid(buf[7]) {
        error::Error::CipherError(crate::encryption::error::Error::BrokenByteEncryption)
    } else {
        error::Error::FormatError(crate::resource_type::error::Error::BrokenByteFormat)
    }
}

/// The header of a container: constructed fresh when preparing, parsed back
/// when reading or decrypting, never mutated once written.
#[derive(Debug)]
pub struct Scriber {
    format: ResourceType,
    cipher: CryptoFormat,
    version: u8,
    salt: StandardSalt,
    nonce: StandardNonce,
}

impl Scriber {
    /// The stored content format.
    pub closed spec fn spec_format(&self) -> ResourceType {
        self.format
    }

    /// The stored cipher format.
    pub closed spec fn spec_cipher(&self) -> CryptoFormat {
        self.cipher
    }

    /// The stored format version.
    pub closed spec fn spec_version(&self) -> u8 {
        self.version
    }

    /// The stored salt bytes.
    pub closed spec fn spec_salt(&self) -> Seq<u8> {
        self.salt@
    }

    /// The stored nonce bytes.
    pub closed spec fn spec_nonce(&self) -> Seq<u8> {
        self.nonce@
    }

    /// A well-formed header holds a salt and a nonce of their fixed sizes.
    pub open spec fn wf(&self) -> bool {
        &&& self.spec_salt().len() == crate::derive_key::salt::spec_salt_size()
        &&& self.spec_nonce().len() == crate::derive_key::nonce::spec_nonce_size()
    }

    /// The 42 bytes this header serializes to.
    pub open spec fn spec_bytes(&self) -> Seq<u8> {
        spec_header_layout(
            self.spec_version(),
            self.spec_cipher(),
            self.spec_format(),
            self.spec_salt(),
            self.spec_nonce(),
        )
    }

    /// Builds a fresh header from current parameters, at format version 1.
    pub fn new(
        format: ResourceType,
        cipher: CryptoFormat,
        salt: StandardSalt,
        nonce: StandardNonce,
    ) -> (r: Scriber)
        ensures
            r.spec_format() == format,
            r.spec_cipher() == cipher,
            r.spec_version() == 1,
            r.spec_salt() == salt@,
            r.spec_nonce() == nonce@,
    {
        Scriber { format, cipher, version: 1, salt, nonce }
    }

    /// Serializes this header into its fixed 42-byte layout.
    pub fn to_byte(&self) -> (r: Vec<u8>)
        requires
            self.wf(),
        ensures
            r@ == self.spec_bytes(),
            r@.len() == spec_header_size(),
    {
        let mut buf: Vec<u8> = Vec::new();
        buf.push(67);
        buf.push(82);
        buf.push(89);
        buf.push(80);
        buf.push(84);
        buf.push(79);
        buf.push(self.version);
        buf.push(self.cipher.to_byte());
        buf.push(self.format.to_byte());
        buf.push(0);
        buf.push(0);
        buf.push(0);
        buf.push(0);
        buf.push(0);
        crate::buffer::append_bytes(&mut buf, self.salt.as_bytes());
        crate::buffer::append_bytes(&mut buf, self.nonce.as_bytes());
        proof {
            assert(buf@ =~= self.spec_bytes());
        }
        buf
    }

    /// Parses a header back from the front of a buffer. Rejects a buffer
    /// shorter than 42 bytes, one that does not open with the magic tag, and
    /// one whose stored cipher or format byte is outside its closed set.
    pub fn read_from_buffer(buf: &[u8]) -> (r: Result<Scriber, error::Error>)
        ensures
            spec_parse_ok(buf@) <==> r is Ok,
            buf@.len() < spec_header_size() <==> r matches Err(error::Error::ExcessError),
            (buf@.len() >= spec_header_size() && buf@.subrange(0, 6) != spec_magic())
                <==> r matches Err(error::Error::NotFoundSubscribe),
            (buf@.len() >= spec_header_size() && buf@.subrange(0, 6) == spec_magic()
                && !crate::encryption::spec_cipher_byte_valid(buf@[7])) <==> r matches Err(
                error::Error::CipherError(crate::encryption::error::Error::BrokenByteEncryption),
            ),
            (buf@.len() >= spec_header_size() && buf@.subrange(0, 6) == spec_magic()
                && crate::encryption::spec_cipher_byte_valid(buf@[7])
                && !crate::resource_type::spec_format_byte_valid(buf@[8])) <==> r matches Err(
                error::Error::FormatError(crate::resource_type::error::Error::BrokenByteFormat),
            ),
            r matches Err(e) ==> e == spec_parse_error(buf@),
            r matches Ok(h) ==> {
                &&& h.wf()
                &&& h.spec_version() == spec_parsed_version(buf@)
                &&& h.spec_cipher() == spec_parsed_cipher(buf@)
                &&& h.spec_format() == spec_parsed_format(buf@)
                &&& h.spec_salt() == spec_parsed_salt(buf@)
                &&& h.spec_nonce() == spec_parsed_nonce(buf@)
            },
    {
        if buf.len() < 42 {
            return Err(error::Error::ExcessError);
        }
        if !check_magic(buf) {
            return Err(error::Error::NotFoundSubscribe);
        }
        let version = buf[6];
        let cipher = match CryptoFormat::from_byte(buf[7]) {
            Ok(c) => c,
            Err(e) => {
                return Err(error::Error::CipherError(e));
            },
        };
        let format = match ResourceType::from_byte(buf[8]) {
            Ok(f) => f,
            Err(e) => {
                return Err(error::Error::FormatError(e));
            },
        };
        let salt_bytes = vstd::slice::slice_subrange(buf, 14, 30);
        let salt = match StandardSalt::from_bytes(salt_bytes) {
            Ok(s) => s,
            Err(e) => {
                return Err(error::Error::SaltError(e));
            },
        };
        let nonce_bytes = vstd::slice::slice_subrange(buf, 30, 42);
        let nonce = match StandardNonce::from_bytes(nonce_bytes) {
            Ok(n) => n,
            Err(e) => {
                return Err(error::Error::NonceError(e));
            },
        };
        Ok(Scriber { format, cipher, version, salt, nonce })
    }

    /// Splices this header in front of a payload: the container is the 42
    /// header bytes immediately followed by the payload, with no gap.
    pub fn write_to_buffer(&self, payload: &[u8]) -> (r: Vec<u8>)
        requires
            self.wf(),
            payload@.len() + spec_header_size() <= usize::MAX,
        ensures
            r@ == self.spec_bytes() + payload@,
    {
        let mut out = self.to_byte();
        crate::buffer::append_bytes(&mut out, payload);
        out
    }

    /// Strips the header from a container: drops the first 42 bytes and
    /// keeps the payload.
    pub fn remove_from_buffer(&self, container: &[u8]) -> (r: Vec<u8>)
        requires
            container@.len() >= spec_header_size(),
        ensures
            r@ == container@.skip(spec_header_size()),
    {
        crate::buffer::copy_range(container, 42, container.len())
    }

    /// The stored salt, copied out by value.
    pub fn get_salt(&self) -> (r: StandardSalt)
        ensures
            r@ == self.spec_salt(),
    {
        self.salt.clone()
    }

    /// The stored nonce, copied out by value.
    pub fn get_nounce(&self) -> (r: StandardNonce)
        ensures
            r@ == self.spec_nonce(),
    {
        self.nonce.clone()
    }

    /// The stored cipher format, copied out by value.
    pub fn get_cipher(&self) -> (r: CryptoFormat)
        ensures
            r == self.spec_cipher(),
    {
        self.cipher
    }

    /// The stored content format, copied out by value.
    pub fn get_format(&self) -> (r: ResourceType)
        ensures
            r == self.spec_format(),
    {
        self.format
    }
}

/// Whether the first six bytes of a buffer are the magic tag.
fn check_magic(buf: &[u8]) -> (r: bool)
    requires
        buf@.len() >= 6,
    ensures
        r <==> buf@.subrange(0, 6) == spec_magic(),
{
    let r = buf[0] == 67 && buf[1] == 82 && buf[2] == 89 && buf[3] == 80 && buf[4] == 84
        && buf[5] == 79;
    proof {
        let s = buf@.subrange(0, 6);
        let m = spec_magic();
        assert(s[0] == buf@[0] && s[1] == buf@[1] && s[2] == buf@[2] && s[3] == buf@[3] && s[4]
            == buf@[4] && s[5] == buf@[5]);
        assert(m[0] == 67u8 && m[1] == 82u8 && m[2] == 89u8 && m[3] == 80u8 && m[4] == 84u8 && m[5]
            == 79u8);
        if r {
            assert(s =~= m);
        } else {
            if s == m {
                assert(false);
            }
        }
    }
    r
}

/// Header round-trip: parsing the serialized bytes of any well-formed header
/// succeeds and recovers every field.
pub proof fn lemma_header_roundtrip(h: Scriber)
    requires
        h.wf(),
    ensures
        spec_parse_ok(h.spec_bytes()),
        spec_parsed_version(h.spec_bytes()) == h.spec_version(),
        spec_parsed_cipher(h.spec_bytes()) == h.spec_cipher(),
        spec_parsed_format(h.spec_bytes()) == h.spec_format(),
        spec_parsed_salt(h.spec_bytes()) == h.spec_salt(),
        spec_parsed_nonce(h.spec_bytes()) == h.spec_nonce(),
{
    let b = h.spec_bytes();
    assert(b.len() == 42);
    assert(b.subrange(0, 6) =~= spec_magic());
    assert(b[7] == crate::encryption::spec_cipher_byte(h.spec_cipher()));
    assert(b[8] == crate::resource_type::spec_format_byte(h.spec_format()));
    crate::encryption::lemma_cipher_byte_roundtrip(h.spec_cipher());
    crate::resource_type::lemma_format_byte_roundtrip(h.spec_format());
    assert(spec_parsed_salt(b) =~= h.spec_salt());
    assert(spec_parsed_nonce(b) =~= h.spec_nonce());
}

} // verus!
