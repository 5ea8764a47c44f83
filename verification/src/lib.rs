//! Decoder for the binary container format of Blender project files
//! ("blend files"), without invoking Blender itself.
//!
//! The library works on the raw bytes of a file. It can
//! - check that the bytes form a well-formed blend file (optionally
//!   gzip-compressed as a whole),
//! - report the version of Blender that produced the file, and
//! - enumerate the scene records stored in the file, each with a name and
//!   an inclusive frame range.
//!
//! Reading a file from disk is the caller's business; every function here
//! takes the bytes themselves.

use vstd::prelude::*;

pub mod codec;
pub mod error;
pub mod ext;
pub mod header;
pub mod laws;
pub mod scene;
pub mod walker;

pub use error::DecodeError;
pub use header::Geometry;
pub use scene::{FrameRange, SceneRecord, SceneTable};

verus! {

use crate::ext::gunzip_of;
use crate::header::{gzip_magic, spec_inspect, spec_validate};
use crate::walker::{first_block_offset, spec_walk};

/// The bytes every read actually sees: the input itself, or, when the input
/// is gzip-compressed as a whole, its decompressed form (`None` when
/// decompression fails).
pub open spec fn effective_bytes(s: Seq<u8>) -> Option<Seq<u8>> {
    if gzip_magic(s) {
        gunzip_of(s)
    } else {
        Some(s)
    }
}

/// What [`validate_basic`] returns on a file whose raw bytes are `s`.
pub open spec fn spec_validate_file(s: Seq<u8>) -> Result<(), DecodeError> {
    match effective_bytes(s) {
        Option::None => Err(DecodeError::IoError),
        Option::Some(t) => spec_validate(t),
    }
}

/// What [`get_version`] and [`check_blend`] return on a file whose raw
/// bytes are `s`, with the version string as its character sequence.
pub open spec fn spec_version_file(s: Seq<u8>) -> Result<Seq<char>, DecodeError> {
    match effective_bytes(s) {
        Option::None => Err(DecodeError::IoError),
        Option::Some(t) => match spec_inspect(t) {
            Ok(gv) => Ok(gv.1),
            Err(e) => Err(e),
        },
    }
}

/// The full decode of already decompressed bytes: header inspection, then
/// the block walk from offset 12.
pub open spec fn spec_decode(s: Seq<u8>) -> Result<
    (Seq<char>, Map<Seq<u8>, FrameRange>),
    DecodeError,
> {
    match spec_inspect(s) {
        Err(e) => Err(e),
        Ok(gv) => match spec_walk(
            s,
            first_block_offset(),
            gv.0.pointer_width as int,
            gv.0.big_endian,
            Map::empty(),
        ) {
            Err(e) => Err(e),
            Ok(m) => Ok((gv.1, m)),
        },
    }
}

/// What [`decode`] returns on a file whose raw bytes are `s`.
pub open spec fn spec_decode_file(s: Seq<u8>) -> Result<
    (Seq<char>, Map<Seq<u8>, FrameRange>),
    DecodeError,
> {
    match effective_bytes(s) {
        Option::None => Err(DecodeError::IoError),
        Option::Some(t) => spec_decode(t),
    }
}

/// Everything [`decode`] promises of its result, as one predicate of the
/// input bytes alone; decoding is therefore a pure function of the bytes.
pub open spec fn decode_post(s: Seq<u8>, r: Result<(String, SceneTable), DecodeError>) -> bool {
    match spec_decode_file(s) {
        Ok(vm) => {
            &&& r is Ok
            &&& r->Ok_0.0@ == vm.0
            &&& r->Ok_0.1@ == vm.1
            &&& r->Ok_0.1.wf()
            &&& r->Ok_0.1.all_version(vm.0)
        },
        Err(e) => r == Err::<(String, SceneTable), DecodeError>(e),
    }
}

/// Everything [`parse_scenes`] promises of its result.
pub open spec fn scenes_post(s: Seq<u8>, r: Result<SceneTable, DecodeError>) -> bool {
    match spec_decode_file(s) {
        Ok(vm) => {
            &&& r is Ok
            &&& r->Ok_0@ == vm.1
            &&& r->Ok_0.wf()
            &&& r->Ok_0.all_version(vm.0)
        },
        Err(e) => r == Err::<SceneTable, DecodeError>(e),
    }
}

/// Checks that the bytes are a well-formed blend file prefix: the seven
/// magic bytes `"BLENDER"`, decompressed first when the file is
/// gzip-wrapped. [`spec_validate_file`] says exactly what comes back.
pub fn validate_basic(data: &[u8]) -> (r: Result<(), DecodeError>)
    ensures
        r == spec_validate_file(data@),
{
    if header::is_gzip(data) {
        match ext::gunzip(data) {
            Err(e) => Err(e),
            Ok(raw) => header::validate_raw(raw.as_slice()),
        }
    } else {
        header::validate_raw(data)
    }
}

/// Reads the producer version from the header: the three ASCII digits at
/// offset 9 with a decimal point after the first (raw `"279"` becomes
/// `"2.79"`), after validation and transparent decompression.
/// [`spec_version_file`] says exactly what comes back.
pub fn get_version(data: &[u8]) -> (r: Result<String, DecodeError>)
    ensures
        spec_version_file(data@) is Ok ==> r is Ok && r->Ok_0@ == spec_version_file(data@)->Ok_0,
        spec_version_file(data@) is Err ==> r == Err::<String, DecodeError>(
            spec_version_file(data@)->Err_0,
        ),
{
    let inspected = if header::is_gzip(data) {
        match ext::gunzip(data) {
            Err(e) => Err(e),
            Ok(raw) => header::inspect_raw(raw.as_slice()),
        }
    } else {
        header::inspect_raw(data)
    };
    match inspected {
        Err(e) => Err(e),
        Ok((_geometry, version)) => Ok(version),
    }
}

/// Validates the bytes and returns the producer version: exactly
/// [`validate_basic`] followed by [`get_version`], with the validation
/// error taking precedence. The contract is that of [`get_version`], whose
/// error cases extend validation's.
pub fn check_blend(data: &[u8]) -> (r: Result<String, DecodeError>)
    ensures
        spec_version_file(data@) is Ok ==> r is Ok && r->Ok_0@ == spec_version_file(data@)->Ok_0,
        spec_version_file(data@) is Err ==> r == Err::<String, DecodeError>(
            spec_version_file(data@)->Err_0,
        ),
{
    match validate_basic(data) {
        Err(e) => Err(e),
        Ok(()) => get_version(data),
    }
}

/// The full decode of already decompressed bytes.
fn decode_raw(data: &[u8]) -> (r: Result<(String, SceneTable), DecodeError>)
    ensures
        (match spec_decode(data@) {
            Ok(vm) => {
                &&& r is Ok
                &&& r->Ok_0.0@ == vm.0
                &&& r->Ok_0.1@ == vm.1
                &&& r->Ok_0.1.wf()
                &&& r->Ok_0.1.all_version(vm.0)
            },
            Err(e) => r == Err::<(String, SceneTable), DecodeError>(e),
        }),
{
    match header::inspect_raw(data) {
        Err(e) => Err(e),
        Ok((geometry, version)) => {
            match walker::walk_scenes(data, geometry, version.as_str()) {
                Err(e) => Err(e),
                Ok(table) => Ok((version, table)),
            }
        },
    }
}

/// Decodes a whole file: validation, version, and the table of every scene
/// record found in the block stream, transparently decompressed when the
/// file is gzip-wrapped. [`decode_post`] (over [`spec_decode_file`]) says
/// exactly what comes back.
pub fn decode(data: &[u8]) -> (r: Result<(String, SceneTable), DecodeError>)
    ensures
        decode_post(data@, r),
{
    if header::is_gzip(data) {
        match ext::gunzip(data) {
            Err(e) => Err(e),
            Ok(raw) => decode_raw(raw.as_slice()),
        }
    } else {
        decode_raw(data)
    }
}

/// Decodes a whole file and returns the scene table alone.
/// [`scenes_post`] says exactly what comes back.
pub fn parse_scenes(data: &[u8]) -> (r: Result<SceneTable, DecodeError>)
    ensures
        scenes_post(data@, r),
{
    match decode(data) {
        Ok((_version, table)) => Ok(table),
        Err(e) => Err(e),
    }
}

} // verus!
