//! The closed classification of a payload's original content format.

use vstd::prelude::*;

pub mod error;

verus! {

/// The closed set of content formats a container can record: plain text, an
/// Office Open XML document, an already-encrypted container, or anything
/// else.
#[derive(Debug, Clone, Copy, PartialEq, Eq, Structural)]
pub enum ResourceType {
    PlainText,
    OfficeDocument,
    Crypted,
    UnknowFormat,
}

/// The byte identifier under which a content format is stored in a header.
pub open spec fn spec_format_byte(t: ResourceType) -> u8 {
    match t {
        ResourceType::OfficeDocument => 3,
        ResourceType::PlainText => 2,
        ResourceType::Crypted => 1,
        ResourceType::UnknowFormat => 0,
    }
}

/// Whether a stored byte names a content format of the closed set.
pub open spec fn spec_format_byte_valid(byte: u8) -> bool {
    byte == 0 || byte == 1 || byte == 2 || byte == 3
}

/// The content format a stored byte names; meaningful only when the byte is
/// valid.
pub open spec fn spec_format_of_byte(byte: u8) -> ResourceType {
    if byte == 3 {
        ResourceType::OfficeDocument
    } else if byte == 2 {
        ResourceType::PlainText
    } else if byte == 1 {
        ResourceType::Crypted
    } else {
        ResourceType::UnknowFormat
    }
}

/// The content format that sniffing a byte sequence yields. The sniffing is
/// done by an outside crate; the library relies only on the result being a
/// function of the bytes alone.
pub uninterp spec fn sniffed_type(bytes: Seq<u8>) -> ResourceType;

/// Relies on file_format::FileFormat::from_bytes: the sniffed format depends
/// on the given bytes alone.
#[verifier::external_body]
pub fn classify_bytes(bytes: &[u8]) -> (r: ResourceType)
    ensures
        r == sniffed_type(bytes@),
{
    match file_format::FileFormat::from_bytes(bytes) {
        file_format::FileFormat::PlainText => ResourceType::PlainText,
        file_format::FileFormat::OfficeOpenXmlDocument => ResourceType::OfficeDocument,
        _ => ResourceType::UnknowFormat,
    }
}

/// How many bytes of an unrecognized payload are shown when it is displayed.
pub open spec fn spec_preview_limit() -> int {
    128
}

impl ResourceType {
    /// Serializes this content format as its one-byte identifier.
    pub fn to_byte(&self) -> (r: u8)
        ensures
            r == spec_format_byte(*self),
    {
        match self {
            ResourceType::OfficeDocument => 3,
            ResourceType::PlainText => 2,
            ResourceType::Crypted => 1,
            ResourceType::UnknowFormat => 0,
        }
    }

    /// Reads a content format back from its one-byte identifier; any byte
    /// outside the closed set is rejected.
    pub fn from_byte(byte: u8) -> (r: Result<ResourceType, error::Error>)
        ensures
            spec_format_byte_valid(byte) <==> (r matches Ok(t) && t == spec_format_of_byte(byte)),
            !spec_format_byte_valid(byte) <==> r matches Err(error::Error::BrokenByteFormat),
    {
        match byte {
            3 => Ok(ResourceType::OfficeDocument),
            2 => Ok(ResourceType::PlainText),
            1 => Ok(ResourceType::Crypted),
            0 => Ok(ResourceType::UnknowFormat),
            _ => Err(error::Error::BrokenByteFormat),
        }
    }

    /// The bytes a bounded preview of the payload shows: the whole payload
    /// when it is short, else its first 128 bytes.
    pub fn preview(bytes: &[u8]) -> (r: Vec<u8>)
        ensures
            bytes@.len() <= spec_preview_limit() ==> r@ == bytes@,
            bytes@.len() > spec_preview_limit() ==> r@ == bytes@.subrange(0, spec_preview_limit()),
    {
        let limit: usize = if bytes.len() < 128 {
            bytes.len()
        } else {
            128
        };
        let r = crate::buffer::copy_range(bytes, 0, limit);
        proof {
            if bytes@.len() <= spec_preview_limit() {
                assert(r@ =~= bytes@);
            }
        }
        r
    }
}

/// Byte-identifier closure for the content-format registry: reading a
/// format's own identifier back always yields that format.
pub proof fn lemma_format_byte_roundtrip(t: ResourceType)
    ensures
        spec_format_byte_valid(spec_format_byte(t)),
        spec_format_of_byte(spec_format_byte(t)) == t,
{
}

} // verus!
