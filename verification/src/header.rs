//! The header inspector: magic signature, compression sniffing, pointer
//! width, byte order and producer version, all derived from a fixed prefix
//! of the byte stream.

use vstd::prelude::*;
use vstd::utf8::{decode_utf8, valid_utf8};
use crate::error::DecodeError;

verus! {

/// True when the bytes start with the two gzip magic bytes, so the whole
/// stream is to be decompressed before anything else is read.
pub open spec fn gzip_magic(s: Seq<u8>) -> bool {
    s.len() >= 2 && s[0] == 0x1f && s[1] == 0x8b
}

/// True when the bytes start with the seven ASCII bytes `"BLENDER"`.
pub open spec fn blend_magic(s: Seq<u8>) -> bool {
    &&& s.len() >= 7
    &&& s[0] == 0x42  // 'B'
    &&& s[1] == 0x4c  // 'L'
    &&& s[2] == 0x45  // 'E'
    &&& s[3] == 0x4e  // 'N'
    &&& s[4] == 0x44  // 'D'
    &&& s[5] == 0x45  // 'E'
    &&& s[6] == 0x52  // 'R'
}

/// What validation of (already decompressed) bytes returns: too short a
/// prefix is a truncated header, anything but the magic signature is an
/// invalid file, the signature itself is success.
pub open spec fn spec_validate(s: Seq<u8>) -> Result<(), DecodeError> {
    if s.len() < 7 {
        Err(DecodeError::TruncatedHeader)
    } else if !blend_magic(s) {
        Err(DecodeError::InvalidMagic)
    } else {
        Ok(())
    }
}

/// The per-file geometry derived once from the header and applied to every
/// integer and pointer field for the rest of the decode.
#[derive(Clone, Copy, Debug, PartialEq, Eq, Structural)]
pub struct Geometry {
    /// Size in bytes of the block addresses stored in the file: 4 or 8.
    pub pointer_width: u8,
    /// True when every multi-byte integer in the file is big-endian.
    pub big_endian: bool,
}

impl Geometry {
    /// Both fields hold a value the format allows.
    pub open spec fn wf(self) -> bool {
        self.pointer_width == 4 || self.pointer_width == 8
    }
}

/// The geometry encoded in header bytes 7 and 8: `'-'` (0x2d) selects 8-byte
/// pointers, anything else 4-byte; `'V'` (0x56) selects big-endian, anything
/// else little-endian.
pub open spec fn spec_geometry(s: Seq<u8>) -> Geometry
    recommends
        s.len() >= 9,
{
    Geometry {
        pointer_width: if s[7] == 0x2d { 8u8 } else { 4u8 },
        big_endian: s[8] == 0x56,
    }
}

/// True when the three version digits at offset 9 are ASCII, the one shape
/// in which they can be read as three separate characters.
pub open spec fn version_ascii(s: Seq<u8>) -> bool
    recommends
        s.len() >= 12,
{
    s[9] < 0x80 && s[10] < 0x80 && s[11] < 0x80
}

/// The version text: the three bytes at offset 9 with an ASCII decimal
/// point (0x2e) inserted after the first.
pub open spec fn version_bytes(s: Seq<u8>) -> Seq<u8>
    recommends
        s.len() >= 12,
{
    seq![s[9], 0x2eu8, s[10], s[11]]
}

/// The version string of the file whose decompressed bytes are `s`.
pub open spec fn spec_version(s: Seq<u8>) -> Seq<char>
    recommends
        s.len() >= 12,
        version_ascii(s),
{
    decode_utf8(version_bytes(s))
}

/// What full header inspection of (already decompressed) bytes returns:
/// validation as in [`spec_validate`], then a 32-byte window for the
/// geometry, then the version digits.
pub open spec fn spec_inspect(s: Seq<u8>) -> Result<(Geometry, Seq<char>), DecodeError> {
    if s.len() < 7 {
        Err(DecodeError::TruncatedHeader)
    } else if !blend_magic(s) {
        Err(DecodeError::InvalidMagic)
    } else if s.len() < 32 {
        Err(DecodeError::TruncatedHeader)
    } else if !version_ascii(s) {
        Err(DecodeError::EncodingError)
    } else {
        Ok((spec_geometry(s), spec_version(s)))
    }
}

/// A sequence of ASCII bytes is valid UTF-8, and decodes to one character
/// per byte.
pub proof fn lemma_ascii_valid_utf8(s: Seq<u8>)
    requires
        forall|i: int| 0 <= i < s.len() ==> s[i] < 0x80,
    ensures
        valid_utf8(s),
        decode_utf8(s) == Seq::new(s.len(), |i: int| s[i] as char),
    decreases s.len(),
{
    if s.len() == 0 {
        assert(decode_utf8(s) =~= Seq::new(s.len(), |i: int| s[i] as char));
    } else {
        let b = s[0];
        assert(b & 0x7f == b) by (bit_vector)
            requires
                b < 0x80,
        ;
        assert(vstd::utf8::is_leading_byte_width_1(b));
        assert(vstd::utf8::length_of_first_scalar(s) == 1);
        assert(vstd::utf8::valid_first_scalar(s));
        let rest = vstd::utf8::pop_first_scalar(s);
        assert(rest =~= s.drop_first());
        assert forall|i: int| 0 <= i < rest.len() implies rest[i] < 0x80 by {
            assert(rest[i] == s[i + 1]);
        }
        lemma_ascii_valid_utf8(rest);
        assert(valid_utf8(s));
        assert(vstd::utf8::decode_first_scalar(s) == b as u32);
        assert(decode_utf8(s) =~= Seq::new(s.len(), |i: int| s[i] as char));
    }
}

/// The version string is the three header digits with a decimal point
/// after the first, character for character.
pub proof fn lemma_version_chars(s: Seq<u8>)
    requires
        s.len() >= 12,
        version_ascii(s),
    ensures
        spec_version(s) =~= seq![s[9] as char, '.', s[10] as char, s[11] as char],
        spec_version(s).len() == 4,
{
    lemma_ascii_valid_utf8(version_bytes(s));
    assert(spec_version(s) == Seq::new(4, |i: int| version_bytes(s)[i] as char));
    assert(version_bytes(s)[1] == 0x2eu8);
    assert(0x2eu8 as char == '.');
}

/// Whether the bytes announce whole-file gzip compression.
pub fn is_gzip(data: &[u8]) -> (r: bool)
    ensures
        r == gzip_magic(data@),
{
    data.len() >= 2 && data[0] == 0x1f && data[1] == 0x8b
}

/// Validation of already decompressed bytes; [`spec_validate`] says exactly
/// what comes back.
pub(crate) fn validate_raw(data: &[u8]) -> (r: Result<(), DecodeError>)
    ensures
        r == spec_validate(data@),
{
    if data.len() < 7 {
        return Err(DecodeError::TruncatedHeader);
    }
    if data[0] == 0x42 && data[1] == 0x4c && data[2] == 0x45 && data[3] == 0x4e && data[4] == 0x44
        && data[5] == 0x45 && data[6] == 0x52 {
        Ok(())
    } else {
        Err(DecodeError::InvalidMagic)
    }
}

/// Header inspection of already decompressed bytes; [`spec_inspect`] says
/// exactly what comes back, with the version string materialized.
pub(crate) fn inspect_raw(data: &[u8]) -> (r: Result<(Geometry, String), DecodeError>)
    ensures
        spec_inspect(data@) is Ok ==> {
            &&& r is Ok
            &&& r->Ok_0.0 == spec_inspect(data@)->Ok_0.0
            &&& r->Ok_0.1@ == spec_inspect(data@)->Ok_0.1
        },
        spec_inspect(data@) is Err ==> r == Err::<(Geometry, String), DecodeError>(
            spec_inspect(data@)->Err_0,
        ),
{
    if let Err(e) = validate_raw(data) {
        return Err(e);
    }
    if data.len() < 32 {
        return Err(DecodeError::TruncatedHeader);
    }
    if !(data[9] < 0x80 && data[10] < 0x80 && data[11] < 0x80) {
        return Err(DecodeError::EncodingError);
    }
    let geometry = Geometry {
        pointer_width: if data[7] == 0x2d { 8 } else { 4 },
        big_endian: data[8] == 0x56,
    };
    let digits: Vec<u8> = vec![data[9], 0x2e, data[10], data[11]];
    proof {
        assert(digits@ =~= version_bytes(data@));
        lemma_ascii_valid_utf8(digits@);
    }
    match crate::ext::bytes_to_str(digits.as_slice()) {
        Some(text) => Ok((geometry, text.to_owned())),
        None => Err(DecodeError::EncodingError),  // unreachable: the digits are ASCII
    }
}

} // verus!
