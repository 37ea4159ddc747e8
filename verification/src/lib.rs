//! Encrypted-container library: a fixed 42-byte header records the cipher,
//! the original content format and the key-derivation parameters (salt and
//! nonce) of a payload; a repeating-key XOR stream cipher transforms the
//! payload; a single-pass SHA-256 derivation turns a password and the stored
//! salt into the symmetric key.

pub mod abstraction;
pub mod buffer;
pub mod derive_key;
pub mod digest;
pub mod encryption;
pub mod interface;
pub mod management;
pub mod path;
pub mod random;
pub mod resource_type;
pub mod router;
pub mod scriber;
