//! The trusted boundary: the few calls into code that Verus does not read.
//! Everything else in the crate is verified against the contracts stated
//! here.

use vstd::prelude::*;
use crate::error::DecodeError;

verus! {

/// What gzip decompression yields on the given input bytes: `Some` with the
/// decompressed bytes of the stream's first member when the input is a
/// well-formed gzip stream, `None` when decoding fails. Decompression reads
/// nothing but the input bytes, so its outcome is a function of them alone.
pub uninterp spec fn gunzip_of(s: Seq<u8>) -> Option<Seq<u8>>;

/// Relies on `flate2::read::GzDecoder` (driven by `std::io::Read::read_to_end`):
/// it decompresses one gzip member from the start of `data`, reading no other
/// source, so the outcome is a function of the input bytes; `gunzip_of` names it.
#[verifier::external_body]
pub(crate) fn gunzip(data: &[u8]) -> (r: Result<Vec<u8>, DecodeError>)
    ensures
        (match r {
            Ok(out) => gunzip_of(data@) == Some(out@),
            Err(e) => gunzip_of(data@) is None && e == DecodeError::IoError,
        }),
{
    let mut gz = flate2::read::GzDecoder::new(data);
    let mut out = Vec::new();
    match std::io::Read::read_to_end(&mut gz, &mut out) {
        Ok(_) => Ok(out),
        Err(_) => Err(DecodeError::IoError),
    }
}

/// Relies on `std::str::from_utf8`: it returns `Ok` exactly when the bytes
/// are valid UTF-8, and then the returned `str` is those bytes read as UTF-8.
#[verifier::external_body]
pub(crate) fn bytes_to_str(data: &[u8]) -> (r: Option<&str>)
    ensures
        (match r {
            Some(text) => vstd::utf8::valid_utf8(data@) && text@ == vstd::utf8::decode_utf8(
                data@,
            ),
            None => !vstd::utf8::valid_utf8(data@),
        }),
{
    match std::str::from_utf8(data) {
        Ok(s) => Some(s),
        Err(_) => None,
    }
}

} // verus!
