use crypto_container::derive_key::nonce::StandardNonce;
use crypto_container::derive_key::salt::StandardSalt;
use crypto_container::encryption::CryptoFormat;
use crypto_container::resource_type::ResourceType;
use crypto_container::scriber::error::Error;
use crypto_container::scriber::Scriber;

fn sample_salt() -> StandardSalt {
    let bytes: Vec<u8> = (1u8..=16u8).collect();
    StandardSalt::from_bytes(&bytes).unwrap()
}

fn sample_nonce() -> StandardNonce {
    let bytes: Vec<u8> = (101u8..=112u8).collect();
    StandardNonce::from_bytes(&bytes).unwrap()
}

#[test]
fn serialized_header_layout() {
    let header = Scriber::new(
        ResourceType::PlainText,
        CryptoFormat::XOR,
        sample_salt(),
        sample_nonce(),
    );
    let bytes = header.to_byte();
    assert_eq!(bytes.len(), 42);
    assert_eq!(&bytes[0..6], b"CRYPTO");
    assert_eq!(bytes[6], 1); // format version
    assert_eq!(bytes[7], 1); // XOR cipher id
    assert_eq!(bytes[8], 2); // plain-text id
    assert_eq!(&bytes[9..14], &[0, 0, 0, 0, 0]); // reserved
    let expected_salt: Vec<u8> = (1u8..=16u8).collect();
    let expected_nonce: Vec<u8> = (101u8..=112u8).collect();
    assert_eq!(&bytes[14..30], expected_salt.as_slice());
    assert_eq!(&bytes[30..42], expected_nonce.as_slice());
}

#[test]
fn header_roundtrip() {
    let header = Scriber::new(
        ResourceType::OfficeDocument,
        CryptoFormat::NoneCipher,
        sample_salt(),
        sample_nonce(),
    );
    let bytes = header.to_byte();
    let parsed = Scriber::read_from_buffer(&bytes).unwrap();
    assert_eq!(parsed.get_format(), ResourceType::OfficeDocument);
    assert_eq!(parsed.get_cipher(), CryptoFormat::NoneCipher);
    assert_eq!(parsed.get_salt().as_bytes(), header.get_salt().as_bytes());
    assert_eq!(parsed.get_nounce().as_bytes(), header.get_nounce().as_bytes());
}

#[test]
fn parse_rejects_short_buffer() {
    for len in [0usize, 1, 6, 41] {
        let buf = vec![0u8; len];
        match Scriber::read_from_buffer(&buf) {
            Err(Error::ExcessError) => {}
            other => panic!("expected ExcessError for length {}, got {:?}", len, other),
        }
    }
}

#[test]
fn parse_rejects_bad_magic() {
    let mut buf = vec![0u8; 42];
    buf[0..6].copy_from_slice(b"CRYPTA");
    match Scriber::read_from_buffer(&buf) {
        Err(Error::NotFoundSubscribe) => {}
        other => panic!("expected NotFoundSubscribe, got {:?}", other),
    }
    // A longer buffer with a wrong magic tag is rejected the same way.
    let mut long = vec![0u8; 100];
    long[0..6].copy_from_slice(b"crypto");
    match Scriber::read_from_buffer(&long) {
        Err(Error::NotFoundSubscribe) => {}
        other => panic!("expected NotFoundSubscribe, got {:?}", other),
    }
}

#[test]
fn parse_rejects_bad_cipher_byte() {
    let mut buf = vec![0u8; 42];
    buf[0..6].copy_from_slice(b"CRYPTO");
    buf[7] = 5;
    match Scriber::read_from_buffer(&buf) {
        Err(Error::CipherError(
            crypto_container::encryption::error::Error::BrokenByteEncryption,
        )) => {}
        other => panic!("expected CipherError, got {:?}", other),
    }
}

#[test]
fn parse_rejects_bad_format_byte() {
    let mut buf = vec![0u8; 42];
    buf[0..6].copy_from_slice(b"CRYPTO");
    buf[7] = 1;
    buf[8] = 9;
    match Scriber::read_from_buffer(&buf) {
        Err(Error::FormatError(
            crypto_container::resource_type::error::Error::BrokenByteFormat,
        )) => {}
        other => panic!("expected FormatError, got {:?}", other),
    }
}

#[test]
fn splice_then_strip_restores_payload() {
    let header = Scriber::new(
        ResourceType::UnknowFormat,
        CryptoFormat::XOR,
        sample_salt(),
        sample_nonce(),
    );
    let payload: Vec<u8> = (0u8..50u8).collect();
    let container = header.write_to_buffer(&payload);
    assert_eq!(container.len(), 42 + payload.len());
    assert_eq!(&container[0..6], b"CRYPTO");
    assert_eq!(&container[42..], payload.as_slice());
    let stripped = header.remove_from_buffer(&container);
    assert_eq!(stripped, payload);
}
