//! The block walker: scans the stream after the 12-byte file header as a
//! sequence of self-describing blocks, collects every scene record, skips
//! every other block byte-for-byte, and stops at the terminator tag or the
//! end of the stream.

use vstd::prelude::*;
use vstd::utf8::valid_utf8;
use crate::codec::{
    copy_range, read_i32, spec_i32_at, trim_nul, trim_trailing_nul, lemma_trim_nul,
};
use crate::error::DecodeError;
use crate::header::Geometry;
use crate::scene::{wf_record, FrameRange, SceneRecord, SceneTable};

verus! {

/// Offset of the first block: the 12-byte file header (magic signature,
/// pointer-width marker, byte-order marker, three version digits).
pub open spec fn first_block_offset() -> int {
    12
}

/// Size of the fixed header that starts every block: 4-byte tag, 4-byte
/// payload size, pointer-sized old address, 4-byte type index, 4-byte
/// structure count.
pub open spec fn block_header_size(pointer_width: int) -> int {
    16 + pointer_width
}

/// True when the four bytes at `pos` are the scene-record tag `"REND"`.
pub open spec fn scene_tag_at(s: Seq<u8>, pos: int) -> bool
    recommends
        0 <= pos,
        pos + 4 <= s.len(),
{
    s[pos] == 0x52 && s[pos + 1] == 0x45 && s[pos + 2] == 0x4e && s[pos + 3] == 0x44
}

/// True when the four bytes at `pos` are the end-of-file tag `"ENDB"`.
pub open spec fn end_tag_at(s: Seq<u8>, pos: int) -> bool
    recommends
        0 <= pos,
        pos + 4 <= s.len(),
{
    s[pos] == 0x45 && s[pos + 1] == 0x4e && s[pos + 2] == 0x44 && s[pos + 3] == 0x42
}

/// The frame range stored as two consecutive signed 32-bit integers at
/// `pos`, in the given byte order.
pub open spec fn spec_frames_at(s: Seq<u8>, pos: int, big: bool) -> FrameRange {
    FrameRange {
        start: spec_i32_at(s, pos, big) as i32,
        end: spec_i32_at(s, pos + 4, big) as i32,
    }
}

/// The trimmed name stored in the 64-byte name field of the scene block
/// whose fixed header starts at `pos`.
pub open spec fn spec_scene_name(s: Seq<u8>, pos: int, pw: int) -> Seq<u8> {
    trim_nul(s.subrange(pos + block_header_size(pw) + 8, pos + block_header_size(pw) + 72))
}

/// What walking the blocks from `pos` adds to the accumulated table `acc`.
///
/// One step reads the 4-byte tag at `pos`. The end tag and the end of the
/// stream finish the walk successfully; a scene tag contributes one record
/// (8 bytes of frame range, 64 bytes of null-padded name after the fixed
/// block header) and a repeated name overwrites the earlier record; any
/// other tag is skipped over by its announced payload size. A block that
/// reaches past the end of the stream, a tag cut short by it, or a negative
/// payload size is a truncated block; a scene name that is not valid UTF-8
/// is an encoding error.
pub open spec fn spec_walk(
    s: Seq<u8>,
    pos: int,
    pw: int,
    big: bool,
    acc: Map<Seq<u8>, FrameRange>,
) -> Result<Map<Seq<u8>, FrameRange>, DecodeError>
    recommends
        pw == 4 || pw == 8,
        0 <= pos <= s.len(),
    decreases s.len() - pos,
    when 0 <= pos <= s.len() && (pw == 4 || pw == 8)
{
    let hsize = block_header_size(pw);
    if pos == s.len() {
        Ok(acc)
    } else if s.len() - pos < 4 {
        Err(DecodeError::TruncatedBlock)
    } else if end_tag_at(s, pos) {
        Ok(acc)
    } else if s.len() - pos < hsize {
        Err(DecodeError::TruncatedBlock)
    } else if scene_tag_at(s, pos) {
        if s.len() - pos < hsize + 72 {
            Err(DecodeError::TruncatedBlock)
        } else {
            let name = spec_scene_name(s, pos, pw);
            if !valid_utf8(name) {
                Err(DecodeError::EncodingError)
            } else {
                spec_walk(
                    s,
                    pos + hsize + 72,
                    pw,
                    big,
                    acc.insert(name, spec_frames_at(s, pos + hsize, big)),
                )
            }
        }
    } else {
        let psize = spec_i32_at(s, pos + 4, big);
        if psize < 0 {
            Err(DecodeError::TruncatedBlock)
        } else if s.len() - pos - hsize < psize {
            Err(DecodeError::TruncatedBlock)
        } else {
            spec_walk(s, pos + hsize + psize, pw, big, acc)
        }
    }
}

/// Walks every block after the file header and collects the scene records;
/// [`spec_walk`] from offset 12 with an empty accumulator says exactly what
/// comes back. Each record carries the version string handed in.
pub(crate) fn walk_scenes(data: &[u8], geometry: Geometry, version: &str) -> (r: Result<
    SceneTable,
    DecodeError,
>)
    requires
        geometry.wf(),
        data@.len() >= 12,
    ensures
        (match spec_walk(
            data@,
            first_block_offset(),
            geometry.pointer_width as int,
            geometry.big_endian,
            Map::empty(),
        ) {
            Ok(m) => {
                &&& r is Ok
                &&& r->Ok_0@ == m
                &&& r->Ok_0.wf()
                &&& r->Ok_0.all_version(version@)
            },
            Err(e) => r == Err::<SceneTable, DecodeError>(e),
        }),
{
    let ghost s = data@;
    let ghost pwi = geometry.pointer_width as int;
    let big = geometry.big_endian;
    let pw = geometry.pointer_width as usize;
    let hsize: usize = 16 + pw;
    let len = data.len();
    let mut table = SceneTable::new();
    let mut pos: usize = 12;
    loop
        invariant
            12 <= pos <= len,
            len == s.len(),
            s == data@,
            pw == geometry.pointer_width,
            pwi == geometry.pointer_width as int,
            hsize == 16 + pw,
            big == geometry.big_endian,
            geometry.wf(),
            table.wf(),
            table.all_version(version@),
            spec_walk(s, first_block_offset(), pwi, big, Map::empty()) == spec_walk(
                s,
                pos as int,
                pwi,
                big,
                table@,
            ),
        decreases len - pos,
    {
        if pos == len {
            return Ok(table);
        }
        if len - pos < 4 {
            return Err(DecodeError::TruncatedBlock);
        }
        if data[pos] == 0x45 && data[pos + 1] == 0x4e && data[pos + 2] == 0x44 && data[pos + 3]
            == 0x42 {
            return Ok(table);
        }
        if len - pos < hsize {
            return Err(DecodeError::TruncatedBlock);
        }
        if data[pos] == 0x52 && data[pos + 1] == 0x45 && data[pos + 2] == 0x4e && data[pos + 3]
            == 0x44 {
            // A scene block: frame range and name at fixed offsets after
            // the block header.
            if len - pos < hsize + 72 {
                return Err(DecodeError::TruncatedBlock);
            }
            let start = read_i32(data, pos + hsize, big);
            let end = read_i32(data, pos + hsize + 4, big);
            let mut name_bytes = copy_range(data, pos + hsize + 8, pos + hsize + 72);
            trim_trailing_nul(&mut name_bytes);
            proof {
                lemma_trim_nul(s.subrange(pos + hsize + 8, pos + hsize + 72));
                assert(name_bytes@ == spec_scene_name(s, pos as int, pwi));
            }
            match crate::ext::bytes_to_str(name_bytes.as_slice()) {
                None => {
                    return Err(DecodeError::EncodingError);
                },
                Some(text) => {
                    let name = text.to_owned();
                    let frames = FrameRange { start, end };
                    proof {
                        assert(frames == spec_frames_at(s, pos as int + hsize as int, big));
                    }
                    let rec = SceneRecord { name_bytes, name, frames, version: version.to_owned() };
                    table.upsert(rec);
                    pos = pos + hsize + 72;
                },
            }
        } else {
            // Any other block: consume the fixed header, then skip the
            // announced payload without interpreting it.
            let psize = read_i32(data, pos + 4, big);
            if psize < 0 {
                return Err(DecodeError::TruncatedBlock);
            }
            let payload = psize as usize;
            if len - pos - hsize < payload {
                return Err(DecodeError::TruncatedBlock);
            }
            pos = pos + hsize + payload;
        }
    }
}

} // verus!
