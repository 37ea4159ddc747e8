use crypto_container::abstraction::error::Error;
use crypto_container::abstraction::Operation;
use crypto_container::encryption::CryptoFormat;
use crypto_container::interface::{Cli, Command};
use crypto_container::management::{App, RunOutput};
use crypto_container::path::{FilePath, PathProbe};
use crypto_container::resource_type::ResourceType;
use crypto_container::router::Router;

fn open_router(path: &str, out: Option<&str>) -> Router {
    let inner = FilePath::new(path.to_string(), Operation::Open, PathProbe::IsFile).unwrap();
    let outer = out.map(|p| {
        FilePath::new(p.to_string(), Operation::Create, PathProbe::Missing).unwrap()
    });
    Router::new(inner, outer)
}

fn plain_text_payload() -> Vec<u8> {
    let line = b"All work and no play makes Jack a dull boy.\n";
    let mut payload = Vec::new();
    while payload.len() < 100 {
        payload.push(line[payload.len() % line.len()]);
    }
    payload
}

fn prepare_container(password: &str, payload: Vec<u8>) -> Vec<u8> {
    let cli = Cli {
        command: Command::Prepare {
            path_inner: "input.txt".to_string(),
            path_outer: Some("output.bin".to_string()),
            password: password.to_string(),
            cipher: CryptoFormat::XOR,
        },
    };
    let router = open_router("input.txt", Some("output.bin"));
    let mut app = App::new(cli, router, payload).unwrap();
    match app.run().unwrap() {
        RunOutput::Write(container) => container,
        other => panic!("prepare must produce bytes to write, got {:?}", other),
    }
}

fn decrypt_container(password: &str, container: Vec<u8>) -> Vec<u8> {
    let cli = Cli {
        command: Command::Decrypt {
            path_inner: "output.bin".to_string(),
            path_outer: Some("restored.txt".to_string()),
            password: password.to_string(),
        },
    };
    let router = open_router("output.bin", Some("restored.txt"));
    let mut app = App::new(cli, router, container).unwrap();
    match app.run().unwrap() {
        RunOutput::Write(payload) => payload,
        other => panic!("decrypt must produce bytes to write, got {:?}", other),
    }
}

#[test]
fn end_to_end_prepare_and_decrypt() {
    let payload = plain_text_payload();
    assert_eq!(payload.len(), 100);

    let container = prepare_container("secret", payload.clone());
    assert_eq!(container.len(), 142);
    assert_eq!(&container[0..6], b"CRYPTO");
    assert_eq!(container[7], 1); // XOR cipher id
    assert_eq!(container[8], 2); // plain-text id

    let restored = decrypt_container("secret", container);
    assert_eq!(restored, payload);
}

#[test]
fn decrypt_with_wrong_password_differs_without_error() {
    let payload = plain_text_payload();
    let container = prepare_container("secret", payload.clone());
    let garbled = decrypt_container("wrong", container);
    assert_eq!(garbled.len(), 100);
    assert_ne!(garbled, payload);
}

#[test]
fn read_shows_payload_with_stored_format() {
    let payload = plain_text_payload();
    let container = prepare_container("secret", payload.clone());
    let cli = Cli {
        command: Command::Read {
            path: "output.bin".to_string(),
            password: "secret".to_string(),
        },
    };
    let router = open_router("output.bin", None);
    let mut app = App::new(cli, router, container).unwrap();
    match app.run().unwrap() {
        RunOutput::Show(format, shown) => {
            assert_eq!(format, ResourceType::PlainText);
            assert_eq!(shown, payload);
        }
        other => panic!("read must display the payload, got {:?}", other),
    }
}

#[test]
fn prepare_with_none_cipher_fails_to_build() {
    let cli = Cli {
        command: Command::Prepare {
            path_inner: "input.txt".to_string(),
            path_outer: None,
            password: String::new(),
            cipher: CryptoFormat::NoneCipher,
        },
    };
    let router = open_router("input.txt", Some("input.txt"));
    let mut app = App::new(cli, router, plain_text_payload()).unwrap();
    match app.run() {
        Err(Error::EncryptionListError(
            crypto_container::encryption::error::Error::NoneExistEncryption,
        )) => {}
        other => panic!("expected NoneExistEncryption, got {:?}", other),
    }
}

#[test]
fn container_marked_none_cipher_is_unrecoverable() {
    let payload = plain_text_payload();
    let mut container = prepare_container("", payload);
    container[7] = 0; // rewrite the stored cipher id to the sentinel
    let cli = Cli {
        command: Command::Decrypt {
            path_inner: "output.bin".to_string(),
            path_outer: Some("restored.txt".to_string()),
            password: String::new(),
        },
    };
    let router = open_router("output.bin", Some("restored.txt"));
    let mut app = App::new(cli, router, container).unwrap();
    match app.run() {
        Err(Error::EncryptionListError(
            crypto_container::encryption::error::Error::NoneExistEncryption,
        )) => {}
        other => panic!("expected NoneExistEncryption, got {:?}", other),
    }
}

#[test]
fn new_rejects_short_input_for_decrypt() {
    let cli = Cli {
        command: Command::Decrypt {
            path_inner: "short.bin".to_string(),
            path_outer: None,
            password: String::new(),
        },
    };
    let router = open_router("short.bin", None);
    match App::new(cli, router, vec![0u8; 10]) {
        Err(Error::HeaderError(
            crypto_container::scriber::error::Error::ExcessError,
        )) => {}
        other => panic!("expected a header length error, got {:?}", other.err()),
    }
}

#[test]
fn empty_payload_roundtrip() {
    let container = prepare_container("secret", Vec::new());
    assert_eq!(container.len(), 42);
    assert_eq!(&container[0..6], b"CRYPTO");
    let restored = decrypt_container("secret", container);
    assert_eq!(restored, Vec::new());
}

#[test]
fn empty_password_roundtrip() {
    let payload = plain_text_payload();
    let container = prepare_container("", payload.clone());
    let restored = decrypt_container("", container);
    assert_eq!(restored, payload);
}
