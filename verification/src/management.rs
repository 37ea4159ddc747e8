//! The command pipeline: ties a parsed command to the header, key
//! derivation, cipher and routing operations. Everything here works on the
//! in-memory buffer; the caller reads it in beforehand and performs whatever
//! the returned outcome asks for.

use vstd::prelude::*;
use crate::abstraction::error::Error;
use crate::derive_key::nonce::{spec_nonce, StandardNonce};
use crate::derive_key::salt::StandardSalt;
use crate::derive_key::secret::StandardKey;
use crate::derive_key::spec_derived_key;
use crate::derive_key::StandardKdf;
use crate::encryption::xor::xor_with_key;
use crate::interface::{Cli, Command};
use crate::resource_type::{sniffed_type, ResourceType};
use crate::router::Router;
use crate::scriber::Scriber;

pub mod error;

verus! {

/// What one run of the pipeline asks its caller to do.
#[derive(Debug)]
pub enum RunOutput {
    /// Write these bytes to the configured output path.
    Write(Vec<u8>),
    /// Display these payload bytes according to the content format.
    Show(ResourceType, Vec<u8>),
}

/// One assembled run of the tool: the file bytes, the routing paths, the
/// header and the key deriver, ready to be executed.
#[derive(Debug)]
pub struct App {
    buffer: Vec<u8>,
    resource: Router,
    scriber: Scriber,
    key_deriver: StandardKdf<32>,
    cli: Cli,
}

impl App {
    /// The file bytes this run works on.
    pub closed spec fn spec_buffer(&self) -> Seq<u8> {
        self.buffer@
    }

    /// The command this run executes.
    pub closed spec fn spec_cli(&self) -> Cli {
        self.cli
    }

    /// The routing paths this run carries.
    pub closed spec fn spec_resource(&self) -> Router {
        self.resource
    }

    /// The router, for the caller that performs the writes it decides.
    pub fn resource(&self) -> (r: &Router)
        ensures
            *r == self.spec_resource(),
    {
        &self.resource
    }

    /// The header this run carries.
    pub closed spec fn spec_scriber(&self) -> Scriber {
        self.scriber
    }

    /// The secret bytes the key deriver holds.
    pub closed spec fn spec_kdf_secret(&self) -> Seq<u8> {
        self.key_deriver.secret@
    }

    /// The salt bytes the key deriver holds.
    pub closed spec fn spec_kdf_salt(&self) -> Seq<u8> {
        self.key_deriver.salt@
    }

    /// The nonce bytes the key deriver holds.
    pub closed spec fn spec_kdf_nonce(&self) -> Seq<u8> {
        self.key_deriver.nonce@
    }

    /// The key every run derives: a 32-byte key from the secret and the
    /// salt the deriver holds.
    pub open spec fn spec_key(&self) -> Seq<u8> {
        spec_derived_key(self.spec_kdf_secret(), self.spec_kdf_salt(), 32)
    }

    /// A well-formed run holds a well-formed header, derives its key from
    /// the salt that header stores, and, for the commands that parsed the
    /// header out of the buffer, still holds the whole container.
    pub open spec fn wf(&self) -> bool {
        &&& self.spec_scriber().wf()
        &&& self.spec_kdf_salt() == self.spec_scriber().spec_salt()
        &&& !(self.spec_cli().command matches Command::Prepare { .. })
            ==> self.spec_buffer().len() >= crate::scriber::spec_header_size()
    }

    /// Assembles a run from a parsed command, the routing paths and the
    /// bytes read from the input path. For reading and decrypting this
    /// parses the header out of the buffer and rebuilds the key deriver
    /// from the password and the stored salt and nonce; for preparing it
    /// draws a fresh salt, derives the nonce, sniffs the content format and
    /// builds a fresh header.
    pub fn new(cli: Cli, resource: Router, buffer: Vec<u8>) -> (r: Result<App, Error>)
        ensures
            r matches Ok(app) ==> {
                &&& app.wf()
                &&& app.spec_cli() == cli
                &&& app.spec_resource() == resource
                &&& app.spec_buffer() == buffer@
            },
            match cli.command {
                Command::Prepare { path_inner: _, path_outer: _, password, cipher } => {
                    &&& (r matches Err(e) ==> e matches Error::SaltError(_))
                    &&& (r matches Ok(app) ==> {
                        let h = app.spec_scriber();
                        &&& h.spec_version() == 1
                        &&& h.spec_cipher() == cipher
                        &&& h.spec_format() == sniffed_type(buffer@)
                        &&& h.spec_nonce() == spec_nonce(password@, h.spec_salt())
                        &&& app.spec_kdf_secret() == vstd::utf8::encode_utf8(password@)
                        &&& app.spec_kdf_nonce() == h.spec_nonce()
                    })
                },
                Command::Read { path: _, password } => {
                    &&& (crate::scriber::spec_parse_ok(buffer@) <==> r is Ok)
                    &&& (r matches Err(e) ==> e == Error::HeaderError(
                        crate::scriber::spec_parse_error(buffer@),
                    ))
                    &&& (r matches Ok(app) ==> parsed_app_ok(app, buffer@, password@))
                },
                Command::Decrypt { path_inner: _, path_outer: _, password } => {
                    &&& (crate::scriber::spec_parse_ok(buffer@) <==> r is Ok)
                    &&& (r matches Err(e) ==> e == Error::HeaderError(
                        crate::scriber::spec_parse_error(buffer@),
                    ))
                    &&& (r matches Ok(app) ==> parsed_app_ok(app, buffer@, password@))
                },
            },
    {
        let parts: Result<(Scriber, StandardKdf<32>), Error> = match &cli.command {
            Command::Read { path: _, password } => Self::parsed_parts(&buffer, password),
            Command::Decrypt { path_inner: _, path_outer: _, password } => Self::parsed_parts(
                &buffer,
                password,
            ),
            Command::Prepare { path_inner: _, path_outer: _, password, cipher } => {
                let salt = match StandardSalt::generate() {
                    Ok(s) => s,
                    Err(e) => {
                        return Err(Error::SaltError(e));
                    },
                };
                let nonce = match StandardNonce::generate(password.as_str(), salt.as_bytes()) {
                    Ok(n) => n,
                    Err(e) => {
                        return Err(Error::NonceError(e));
                    },
                };
                let format = crate::resource_type::classify_bytes(buffer.as_slice());
                let scriber = Scriber::new(format, *cipher, salt.clone(), nonce.clone());
                let secret = StandardKey::new(password.clone());
                let kdf = StandardKdf::new(secret, (), salt, nonce);
                Ok((scriber, kdf))
            },
        };
        match parts {
            Ok((scriber, key_deriver)) => Ok(
                App { buffer, resource, scriber, key_deriver, cli },
            ),
            Err(e) => Err(e),
        }
    }

    /// Parses the header out of a container and rebuilds the key deriver
    /// from the password and the stored salt and nonce.
    fn parsed_parts(buffer: &Vec<u8>, password: &String) -> (r: Result<
        (Scriber, StandardKdf<32>),
        Error,
    >)
        ensures
            crate::scriber::spec_parse_ok(buffer@) <==> r is Ok,
            r matches Err(e) ==> e == Error::HeaderError(crate::scriber::spec_parse_error(buffer@)),
            r matches Ok(parts) ==> {
                let (scriber, kdf) = parts;
                &&& scriber.wf()
                &&& scriber.spec_version() == crate::scriber::spec_parsed_version(buffer@)
                &&& scriber.spec_cipher() == crate::scriber::spec_parsed_cipher(buffer@)
                &&& scriber.spec_format() == crate::scriber::spec_parsed_format(buffer@)
                &&& scriber.spec_salt() == crate::scriber::spec_parsed_salt(buffer@)
                &&& scriber.spec_nonce() == crate::scriber::spec_parsed_nonce(buffer@)
                &&& kdf.secret@ == vstd::utf8::encode_utf8(password@)
                &&& kdf.salt@ == scriber.spec_salt()
                &&& kdf.nonce@ == scriber.spec_nonce()
            },
    {
        let scriber = match Scriber::read_from_buffer(buffer.as_slice()) {
            Ok(s) => s,
            Err(e) => {
                return Err(Error::HeaderError(e));
            },
        };
        let salt = scriber.get_salt();
        let nonce = scriber.get_nounce();
        let secret = StandardKey::new(password.clone());
        let kdf = StandardKdf::new(secret, (), salt, nonce);
        Ok((scriber, kdf))
    }

    /// Executes the run: derives the key, builds the cipher the header
    /// names, and transforms the buffer. Preparing encodes the payload and
    /// splices the header in front; reading strips the header, decodes the
    /// payload and hands it over for display; decrypting strips the header,
    /// decodes the payload and hands it over for writing.
    pub fn run(&mut self) -> (r: Result<RunOutput, Error>)
        requires
            old(self).wf(),
            old(self).spec_cli().command matches Command::Prepare { .. } ==> old(
                self,
            ).spec_buffer().len() + crate::scriber::spec_header_size() <= usize::MAX,
        ensures
            old(self).spec_scriber().spec_cipher() is NoneCipher <==> r matches Err(
                Error::EncryptionListError(crate::encryption::error::Error::NoneExistEncryption),
            ),
            old(self).spec_scriber().spec_cipher() is XOR ==> match old(self).spec_cli().command {
                Command::Prepare { .. } => r matches Ok(out) && (out matches RunOutput::Write(c)
                    && c@ == old(self).spec_scriber().spec_bytes() + xor_with_key(
                    old(self).spec_buffer(),
                    old(self).spec_key(),
                )),
                Command::Read { .. } => r matches Ok(out) && (out matches RunOutput::Show(f, p)
                    && f == old(self).spec_scriber().spec_format() && p@ == xor_with_key(
                    old(self).spec_buffer().skip(crate::scriber::spec_header_size()),
                    old(self).spec_key(),
                )),
                Command::Decrypt { .. } => r matches Ok(out) && (out matches RunOutput::Write(p)
                    && p@ == xor_with_key(
                    old(self).spec_buffer().skip(crate::scriber::spec_header_size()),
                    old(self).spec_key(),
                )),
            },
    {
        let mut key: Vec<u8> = vec![0u8; 32];
        match self.key_deriver.derive_key(&mut key) {
            Ok(()) => (),
            Err(e) => {
                return Err(Error::KDFError(e));
            },
        };
        let cipher_format = self.scriber.get_cipher();
        let cipher = match cipher_format.build(key.as_slice()) {
            Ok(c) => c,
            Err(e) => {
                return Err(Error::EncryptionListError(e));
            },
        };
        let tag: usize = match &self.cli.command {
            Command::Prepare { .. } => 0,
            Command::Read { .. } => 1,
            Command::Decrypt { .. } => 2,
        };
        if tag == 0 {
            cipher.encode(&mut self.buffer);
            let container = self.scriber.write_to_buffer(self.buffer.as_slice());
            Ok(RunOutput::Write(container))
        } else {
            let mut payload = self.scriber.remove_from_buffer(self.buffer.as_slice());
            cipher.decode(&mut payload);
            if tag == 1 {
                Ok(RunOutput::Show(self.scriber.get_format(), payload))
            } else {
                Ok(RunOutput::Write(payload))
            }
        }
    }
}

/// Container round-trip: a container spliced together from a well-formed
/// header and an encoded payload parses again, stores the same salt, and
/// stripping the header and decoding with the same key restores the
/// payload, whatever the payload and the key.
pub proof fn lemma_container_roundtrip(h: Scriber, payload: Seq<u8>, key: Seq<u8>)
    requires
        h.wf(),
    ensures
        ({
            let container = h.spec_bytes() + xor_with_key(payload, key);
            &&& crate::scriber::spec_parse_ok(container)
            &&& crate::scriber::spec_parsed_salt(container) == h.spec_salt()
            &&& crate::scriber::spec_parsed_nonce(container) == h.spec_nonce()
            &&& crate::scriber::spec_parsed_cipher(container) == h.spec_cipher()
            &&& crate::scriber::spec_parsed_format(container) == h.spec_format()
            &&& xor_with_key(
                container.skip(crate::scriber::spec_header_size()),
                key,
            ) == payload
        }),
{
    let header = h.spec_bytes();
    let body = xor_with_key(payload, key);
    let container = header + body;
    crate::scriber::lemma_header_roundtrip(h);
    assert(header.len() == 42);
    assert(container.subrange(0, 6) =~= header.subrange(0, 6));
    assert(container[7] == header[7] && container[8] == header[8]);
    assert(crate::scriber::spec_parsed_salt(container) =~= crate::scriber::spec_parsed_salt(
        header,
    ));
    assert(crate::scriber::spec_parsed_nonce(container) =~= crate::scriber::spec_parsed_nonce(
        header,
    ));
    assert(container.skip(42) =~= body);
    crate::encryption::xor::lemma_xor_roundtrip(payload, key);
}

/// What holds of a run assembled from a parsed container: the header fields
/// are the parsed ones and the key deriver holds the password's bytes with
/// the stored salt and nonce.
pub open spec fn parsed_app_ok(app: App, buffer: Seq<u8>, password: Seq<char>) -> bool {
    let h = app.spec_scriber();
    &&& h.spec_version() == crate::scriber::spec_parsed_version(buffer)
    &&& h.spec_cipher() == crate::scriber::spec_parsed_cipher(buffer)
    &&& h.spec_format() == crate::scriber::spec_parsed_format(buffer)
    &&& h.spec_salt() == crate::scriber::spec_parsed_salt(buffer)
    &&& h.spec_nonce() == crate::scriber::spec_parsed_nonce(buffer)
    &&& app.spec_kdf_secret() == vstd::utf8::encode_utf8(password)
    &&& app.spec_kdf_nonce() == h.spec_nonce()
}

} // verus!
