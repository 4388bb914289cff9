//! Download policy: HTTP status classification, progress clamping, and
//! SHA-256 integrity verification of downloaded bytes. The network transfer
//! itself is the caller's business; every decision about its outcome is
//! taken here.

use vstd::prelude::*;

use crate::strutil;

verus! {

/// Errors of the fetch layer.
#[derive(Debug, Clone, PartialEq, Eq)]
pub enum FetchError {
    /// The server answered with a non-success status.
    HttpStatus(u16),
    /// The transfer itself failed; carries a description.
    Network(String),
    /// The body could not be decoded into the requested shape.
    Deserialization(String),
}

/// The digest that SHA-256 assigns to a byte sequence.
pub uninterp spec fn sha256_of(data: Seq<u8>) -> Seq<u8>;

/// The lower-case hex digit of a value below sixteen.
pub open spec fn hex_digit(n: int) -> char {
    if n < 10 {
        (('0' as int) + n) as char
    } else {
        (('a' as int) + n - 10) as char
    }
}

/// The lower-case hex rendering of a byte sequence, two digits per byte,
/// high nibble first.
pub open spec fn hex_of(data: Seq<u8>) -> Seq<char>
    decreases data.len(),
{
    if data.len() == 0 {
        Seq::empty()
    } else {
        seq![hex_digit((data.first() >> 4) as int), hex_digit((data.first() & 0x0f) as int)]
            + hex_of(data.drop_first())
    }
}

/// Relies on `sha2::Sha256`: the digest is a function of the input bytes
/// alone, and is 32 bytes long.
#[verifier::external_body]
fn sha256_digest(data: &[u8]) -> (r: Vec<u8>)
    ensures
        r@ == sha256_of(data@),
        r@.len() == 32,
{
    <sha2::Sha256 as sha2::Digest>::digest(data).to_vec()
}

/// Relies on `hex::encode`: it renders the bytes as lower-case hex, two
/// digits per byte, high nibble first.
#[verifier::external_body]
fn hex_encode(data: &[u8]) -> (r: String)
    ensures
        r@ == hex_of(data@),
{
    hex::encode(data)
}

/// A status is a success exactly when it lies in the 2xx range.
pub open spec fn is_success_status(status: u16) -> bool {
    200 <= status < 300
}

pub struct Downloader {}

impl Downloader {
    pub fn new() -> (d: Downloader) {
        Downloader {  }
    }

    /// Accepts a response status or rejects it as a hard failure.
    pub fn check_status(&self, status: u16) -> (r: Result<(), FetchError>)
        ensures
            match r {
                Ok(u) => is_success_status(status),
                Err(FetchError::HttpStatus(s)) => s == status && !is_success_status(status),
                Err(_) => false,
            },
    {
        if 200 <= status && status < 300 {
            Ok(())
        } else {
            Err(FetchError::HttpStatus(status))
        }
    }

    /// The progress counter after one received chunk: it grows by the chunk
    /// length but is clamped at the reported total, and never moves
    /// backwards.
    pub fn next_progress(&self, downloaded: u64, chunk_len: u64, total: u64) -> (r: u64)
        requires
            downloaded <= total,
        ensures
            r == vstd::math::min((downloaded + chunk_len) as int, total as int),
            downloaded <= r <= total,
    {
        if chunk_len > total - downloaded {
            total
        } else {
            downloaded + chunk_len
        }
    }

    /// Whether the bytes hash to the expected digest: true exactly when the
    /// lower-case hex rendering of their SHA-256 digest equals the expected
    /// string, compared case-sensitively. A mismatch is an answer, not an
    /// error.
    pub fn verify_checksum(&self, data: &[u8], expected_sha256: &str) -> (r: bool)
        ensures
            r == (hex_of(sha256_of(data@)) == expected_sha256@),
    {
        let digest = sha256_digest(data);
        let rendered = hex_encode(digest.as_slice());
        strutil::str_eq(rendered.as_str(), expected_sha256)
    }
}

} // verus!
