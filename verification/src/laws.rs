//! The library's general guarantees, stated once and proved from the same
//! spec functions the executable contracts use.

use vstd::prelude::*;
use vstd::utf8::valid_utf8;
use crate::error::DecodeError;
use crate::header::{blend_magic, gzip_magic, spec_geometry, spec_inspect, spec_validate, Geometry};
use crate::scene::FrameRange;
use crate::walker::{block_header_size, scene_tag_at, spec_frames_at, spec_scene_name, spec_walk};
use crate::{
    decode_post, effective_bytes, spec_decode_file, spec_validate_file, spec_version_file,
};
use crate::ext::gunzip_of;
use crate::scene::SceneTable;

verus! {

/// Validation is decided by the magic signature alone: bytes that start
/// with `"BLENDER"` validate, and any other byte sequence of at least seven
/// bytes fails with `InvalidMagic`.
pub proof fn lemma_validate_magic(s: Seq<u8>)
    requires
        s.len() >= 7,
    ensures
        spec_validate(s) == Ok::<(), DecodeError>(()) <==> blend_magic(s),
        !blend_magic(s) ==> spec_validate(s) == Err::<(), DecodeError>(DecodeError::InvalidMagic),
{
}

/// Pointer width and byte order are decided by the two marker bytes alone:
/// header byte 7 equal to `'-'` (0x2d) selects 8-byte pointers and any
/// other value 4-byte; header byte 8 equal to `'V'` (0x56) selects
/// big-endian and any other value little-endian.
pub proof fn lemma_geometry_markers(s: Seq<u8>)
    requires
        s.len() >= 9,
    ensures
        spec_geometry(s).pointer_width == 8 <==> s[7] == 0x2d,
        spec_geometry(s).pointer_width == 4 <==> s[7] != 0x2d,
        spec_geometry(s).big_endian <==> s[8] == 0x56,
        spec_geometry(s).wf(),
{
}

/// One walking step at a well-formed scene block: the block's record enters
/// the table under its trimmed name — overwriting an earlier record of the
/// same name — and every other name keeps its range.
pub proof fn lemma_scene_step(
    s: Seq<u8>,
    pos: int,
    pw: int,
    big: bool,
    acc: Map<Seq<u8>, FrameRange>,
)
    requires
        pw == 4 || pw == 8,
        0 <= pos,
        pos + block_header_size(pw) + 72 <= s.len(),
        scene_tag_at(s, pos),
        valid_utf8(spec_scene_name(s, pos, pw)),
    ensures
        spec_walk(s, pos, pw, big, acc) == spec_walk(
            s,
            pos + block_header_size(pw) + 72,
            pw,
            big,
            acc.insert(spec_scene_name(s, pos, pw), spec_frames_at(s, pos + block_header_size(pw), big)),
        ),
        acc.insert(
            spec_scene_name(s, pos, pw),
            spec_frames_at(s, pos + block_header_size(pw), big),
        )[spec_scene_name(s, pos, pw)] == spec_frames_at(s, pos + block_header_size(pw), big),
        forall|k: Seq<u8>|
            k != spec_scene_name(s, pos, pw) && acc.contains_key(k) ==> acc.insert(
                spec_scene_name(s, pos, pw),
                spec_frames_at(s, pos + block_header_size(pw), big),
            )[k] == acc[k],
{
}

/// A successful walk never loses a scene: every name in the accumulated
/// table is in the result. With [`lemma_scene_step`], every scene block's
/// name appears in the final table — blocks with distinct names all
/// survive, and a repeated name keeps the range of the latest block.
pub proof fn lemma_walk_monotone(
    s: Seq<u8>,
    pos: int,
    pw: int,
    big: bool,
    acc: Map<Seq<u8>, FrameRange>,
)
    requires
        pw == 4 || pw == 8,
        0 <= pos <= s.len(),
        spec_walk(s, pos, pw, big, acc) is Ok,
    ensures
        forall|k: Seq<u8>|
            acc.contains_key(k) ==> spec_walk(s, pos, pw, big, acc)->Ok_0.contains_key(k),
    decreases s.len() - pos,
{
    let hsize = block_header_size(pw);
    if pos == s.len() || s.len() - pos < 4 || crate::walker::end_tag_at(s, pos) || s.len() - pos
        < hsize {
    } else if scene_tag_at(s, pos) {
        let acc2 = acc.insert(spec_scene_name(s, pos, pw), spec_frames_at(s, pos + hsize, big));
        lemma_walk_monotone(s, pos + hsize + 72, pw, big, acc2);
        assert forall|k: Seq<u8>| acc.contains_key(k) implies spec_walk(
            s,
            pos,
            pw,
            big,
            acc,
        )->Ok_0.contains_key(k) by {
            assert(acc2.contains_key(k));
            assert(spec_walk(s, pos + hsize + 72, pw, big, acc2)->Ok_0.contains_key(k));
        }
    } else {
        let psize = crate::codec::spec_i32_at(s, pos + 4, big);
        lemma_walk_monotone(s, pos + hsize + psize, pw, big, acc);
    }
}

/// A gzip-wrapped file decodes exactly as the file holding its decompressed
/// bytes would: validation, version and the scene table all agree. (The
/// decompressed bytes of a valid file start with the magic signature, so
/// they are never themselves gzip-wrapped.)
pub proof fn lemma_gzip_transparent(s: Seq<u8>, t: Seq<u8>)
    requires
        gzip_magic(s),
        gunzip_of(s) == Some(t),
        !gzip_magic(t),
    ensures
        spec_validate_file(s) == spec_validate_file(t),
        spec_version_file(s) == spec_version_file(t),
        spec_decode_file(s) == spec_decode_file(t),
{
    assert(effective_bytes(s) == Some(t));
    assert(effective_bytes(t) == Some(t));
}

/// Too few bytes for the fixed header is a truncated header, never a
/// record built from partial bytes.
pub proof fn lemma_truncated_header(s: Seq<u8>)
    ensures
        s.len() < 7 ==> spec_inspect(s) == Err::<(Geometry, Seq<char>), DecodeError>(
            DecodeError::TruncatedHeader,
        ),
        blend_magic(s) && s.len() < 32 ==> spec_inspect(s) == Err::<
            (Geometry, Seq<char>),
            DecodeError,
        >(DecodeError::TruncatedHeader),
{
}

/// A scene block with fewer bytes remaining than its fixed header and
/// payload require yields `TruncatedBlock`, never a scene record built
/// from partial bytes.
pub proof fn lemma_truncated_scene_block(
    s: Seq<u8>,
    pos: int,
    pw: int,
    big: bool,
    acc: Map<Seq<u8>, FrameRange>,
)
    requires
        pw == 4 || pw == 8,
        0 <= pos <= s.len(),
        s.len() - pos >= 4,
        scene_tag_at(s, pos),
        s.len() - pos < block_header_size(pw) + 72,
    ensures
        spec_walk(s, pos, pw, big, acc) == Err::<Map<Seq<u8>, FrameRange>, DecodeError>(
            DecodeError::TruncatedBlock,
        ),
{
}

/// Decoding is a pure function of the file bytes: any two results that
/// [`crate::decode`] can return for the same bytes agree — the same error,
/// or the same version string and the same name-to-frame-range mapping.
pub proof fn lemma_decode_deterministic(
    s: Seq<u8>,
    r1: Result<(String, SceneTable), DecodeError>,
    r2: Result<(String, SceneTable), DecodeError>,
)
    requires
        decode_post(s, r1),
        decode_post(s, r2),
    ensures
        r1 is Ok <==> r2 is Ok,
        r1 is Ok ==> r1->Ok_0.0@ == r2->Ok_0.0@,
        r1 is Ok ==> r1->Ok_0.1@ == r2->Ok_0.1@,
        r1 is Err ==> r1 == r2,
{
}

} // verus!
