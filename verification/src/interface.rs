//! The parsed command-line intent, as plain data. Argument parsing itself is
//! outside the library; callers hand in one of these values.

use vstd::prelude::*;
use crate::encryption::CryptoFormat;

verus! {

/// One parsed invocation of the tool.
#[derive(Debug)]
pub struct Cli {
    pub command: Command,
}

/// The three subcommands of the tool.
#[derive(Debug)]
pub enum Command {
    /// Encrypt a file: sniff its format, build a fresh header, encode the
    /// payload and write header and payload to the output path.
    Prepare { path_inner: String, path_outer: Option<String>, password: String, cipher: CryptoFormat },
    /// Open a container, decode its payload and display it; writes nothing.
    Read { path: String, password: String },
    /// Open a container and write its decoded payload, without the header,
    /// to the output path.
    Decrypt { path_inner: String, path_outer: Option<String>, password: String },
}

} // verus!
