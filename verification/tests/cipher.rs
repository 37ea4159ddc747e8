use crypto_container::encryption::error::Error;
use crypto_container::encryption::xor::XorEncryption;
use crypto_container::encryption::{CryptoFormat, EncryptionRealisation, Key};

#[test]
fn cipher_byte_identifiers() {
    assert_eq!(CryptoFormat::XOR.to_byte(), 1);
    assert_eq!(CryptoFormat::NoneCipher.to_byte(), 0);
}

#[test]
fn cipher_byte_roundtrip() {
    for format in [CryptoFormat::XOR, CryptoFormat::NoneCipher] {
        let back = CryptoFormat::from_byte(format.to_byte()).unwrap();
        assert_eq!(back, format);
    }
}

#[test]
fn cipher_byte_outside_set_fails() {
    for byte in [2u8, 3, 100, 255] {
        match CryptoFormat::from_byte(byte) {
            Err(Error::BrokenByteEncryption) => {}
            other => panic!("expected BrokenByteEncryption for {}, got {:?}", byte, other),
        }
    }
}

#[test]
fn build_none_cipher_fails() {
    let key = vec![1u8, 2, 3];
    match CryptoFormat::NoneCipher.build(&key) {
        Err(Error::NoneExistEncryption) => {}
        other => panic!("expected NoneExistEncryption, got {:?}", other),
    }
}

#[test]
fn xor_known_values() {
    let cipher = XorEncryption::new(vec![0x0F]);
    let mut buf = vec![0x00u8, 0xFF, 0x10];
    cipher.encode(&mut buf);
    assert_eq!(buf, vec![0x0F, 0xF0, 0x1F]);
}

#[test]
fn xor_key_wraparound() {
    let cipher = XorEncryption::new(vec![0x01, 0x02]);
    let mut buf = vec![0x10u8, 0x20, 0x30, 0x40, 0x50];
    cipher.encode(&mut buf);
    assert_eq!(buf, vec![0x11, 0x22, 0x31, 0x42, 0x51]);
}

#[test]
fn xor_roundtrip() {
    let cipher = match CryptoFormat::XOR.build(&[7u8, 42, 250]) {
        Ok(c) => c,
        Err(e) => panic!("XOR must build from a non-empty key, got {:?}", e),
    };
    let original: Vec<u8> = (0u8..=255u8).collect();
    let mut buf = original.clone();
    cipher.encode(&mut buf);
    assert_ne!(buf, original);
    cipher.decode(&mut buf);
    assert_eq!(buf, original);
}

#[test]
fn xor_empty_key_is_noop() {
    let cipher = CryptoFormat::XOR.build(&[]).unwrap();
    let original: Vec<u8> = (0u8..100u8).collect();
    let mut buf = original.clone();
    cipher.encode(&mut buf);
    assert_eq!(buf, original);
    cipher.decode(&mut buf);
    assert_eq!(buf, original);
}

#[test]
fn realisation_from_key_material() {
    let built = EncryptionRealisation::new(Key::Xor(XorEncryption::new(vec![0xAA])));
    let mut buf = vec![0x00u8, 0xAA];
    built.encode(&mut buf);
    assert_eq!(buf, vec![0xAA, 0x00]);
}
