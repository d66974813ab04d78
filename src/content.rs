//! Reading one named capture: its text, its bytes in transport encoding, or
//! its sidecar metadata.
use vstd::prelude::*;
use vstd::string::*;
use base64::engine::Engine;
use crate::capture::{CaptureMetadata, Sidecar};

verus! {

/// The standard base64 encoding of `b`, with padding.
pub uninterp spec fn base64_standard(b: Seq<u8>) -> Seq<char>;

/// Relies on `encode` of base64's `general_purpose::STANDARD` engine: the
/// standard alphabet with padding, four characters for every three bytes or
/// part of three. It panics only where that length overflows `usize`.
#[verifier::external_body]
fn encode_base64(b: &[u8]) -> (r: String)
    requires
        4 * ((b@.len() + 2) / 3) <= usize::MAX,
    ensures
        r@ == base64_standard(b@),
        r@.len() == 4 * ((b@.len() + 2) / 3),
{
    base64::engine::general_purpose::STANDARD.encode(b)
}

/// What reading a named file gave.
#[derive(Debug, Clone, PartialEq, Eq)]
pub enum FileRead<T> {
    /// The file does not exist.
    Missing,
    /// It exists but could not be read; the message says why.
    Failed(String),
    /// Its contents.
    Contents(T),
}

/// What reading a sidecar metadata file gave.
#[derive(Debug, Clone, PartialEq, Eq)]
pub enum SidecarRead {
    Missing,
    ReadFailed(String),
    /// It was read and did not parse as a metadata record.
    Malformed(String),
    Parsed(CaptureMetadata),
}

pub open spec fn text_result_of(read: FileRead<String>) -> Result<Seq<char>, Seq<char>> {
    match read {
        FileRead::Missing => Err("Text file not found"@),
        FileRead::Failed(e) => Err("Failed to read text file: "@ + e@),
        FileRead::Contents(t) => Ok(t@),
    }
}

pub open spec fn image_result_of(path: Seq<char>, read: FileRead<Vec<u8>>) -> Result<
    Seq<char>,
    Seq<char>,
> {
    match read {
        FileRead::Missing => Err("Image file not found: "@ + path),
        FileRead::Failed(e) => Err("Failed to read image file: "@ + e@),
        FileRead::Contents(b) => Ok(base64_standard(b@)),
    }
}

pub open spec fn sidecar_of_read(read: SidecarRead) -> Sidecar {
    match read {
        SidecarRead::Missing => Sidecar::Absent,
        SidecarRead::ReadFailed(_) => Sidecar::Unusable,
        SidecarRead::Malformed(_) => Sidecar::Unusable,
        SidecarRead::Parsed(m) => Sidecar::Parsed(m),
    }
}

pub open spec fn metadata_result_of(read: SidecarRead) -> Result<CaptureMetadata, Seq<char>> {
    match read {
        SidecarRead::Missing => Err("Metadata file not found"@),
        SidecarRead::ReadFailed(why) => Err("Failed to read metadata file: "@ + why@),
        SidecarRead::Malformed(why) => Err("Failed to parse metadata: "@ + why@),
        SidecarRead::Parsed(m) => Ok(m),
    }
}

pub open spec fn metadata_view(r: Result<CaptureMetadata, String>) -> Result<
    CaptureMetadata,
    Seq<char>,
> {
    match r {
        Ok(m) => Ok(m),
        Err(e) => Err(e@),
    }
}

pub open spec fn view_result(r: Result<String, String>) -> Result<Seq<char>, Seq<char>> {
    match r {
        Ok(s) => Ok(s@),
        Err(e) => Err(e@),
    }
}

/// The text of a capture, or why there is none: "not found" is told apart
/// from a failed read.
pub fn text_content(read: FileRead<String>) -> (r: Result<String, String>)
    ensures
        view_result(r) == text_result_of(read),
{
    match read {
        FileRead::Missing => Err(String::from_str("Text file not found")),
        FileRead::Failed(e) => Err(String::from_str("Failed to read text file: ").concat(e.as_str())),
        FileRead::Contents(t) => Ok(t),
    }
}

/// The bytes of the capture at `path`, base64-encoded for the presentation
/// layer, or why there are none.
pub fn image_content(path: &str, read: FileRead<Vec<u8>>) -> (r: Result<String, String>)
    requires
        read matches FileRead::Contents(b) ==> 4 * ((b@.len() + 2) / 3) <= usize::MAX,
    ensures
        view_result(r) == image_result_of(path@, read),
        r matches Ok(s) ==> (read matches FileRead::Contents(b) && s@.len() == 4 * ((b@.len() + 2)
            / 3)),
{
    match read {
        FileRead::Missing => Err(String::from_str("Image file not found: ").concat(path)),
        FileRead::Failed(e) => Err(
            String::from_str("Failed to read image file: ").concat(e.as_str()),
        ),
        FileRead::Contents(b) => Ok(encode_base64(b.as_slice())),
    }
}

/// The sidecar state a listing records: a sidecar that cannot be read or
/// parsed still counts as present, with no metadata.
pub fn sidecar_state(read: SidecarRead) -> (r: Sidecar)
    ensures
        r == sidecar_of_read(read),
{
    match read {
        SidecarRead::Missing => Sidecar::Absent,
        SidecarRead::ReadFailed(_) => Sidecar::Unusable,
        SidecarRead::Malformed(_) => Sidecar::Unusable,
        SidecarRead::Parsed(m) => Sidecar::Parsed(m),
    }
}

/// The metadata of a capture asked for by name: here, unlike in a listing,
/// a missing, unreadable or malformed sidecar is an error.
pub fn metadata_content(read: SidecarRead) -> (r: Result<CaptureMetadata, String>)
    ensures
        metadata_view(r) == metadata_result_of(read),
{
    match read {
        SidecarRead::Missing => Err(String::from_str("Metadata file not found")),
        SidecarRead::ReadFailed(why) => Err(
            String::from_str("Failed to read metadata file: ").concat(why.as_str()),
        ),
        SidecarRead::Malformed(why) => Err(
            String::from_str("Failed to parse metadata: ").concat(why.as_str()),
        ),
        SidecarRead::Parsed(m) => Ok(m),
    }
}

} // verus!
