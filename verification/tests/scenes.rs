// Full decodes of synthetic block streams: scene extraction, skipping,
// truncation, gzip transparency and determinism.

use bender_bouncer::{decode, parse_scenes, DecodeError, SceneTable};

const PW4: u8 = b'_';
const PW8: u8 = b'-';
const LITTLE: u8 = b'v';
const BIG: u8 = b'V';

fn header(pw_marker: u8, endian_marker: u8, version: &[u8; 3]) -> Vec<u8> {
    let mut data = Vec::new();
    data.extend_from_slice(b"BLENDER");
    data.push(pw_marker);
    data.push(endian_marker);
    data.extend_from_slice(version);
    data
}

fn push_i32(data: &mut Vec<u8>, v: i32, big: bool) {
    if big {
        data.extend_from_slice(&v.to_be_bytes());
    } else {
        data.extend_from_slice(&v.to_le_bytes());
    }
}

/// One block: tag, payload size, old address, type index, struct count,
/// then the payload itself.
fn push_block(data: &mut Vec<u8>, tag: &[u8; 4], pw: usize, big: bool, payload: &[u8]) {
    data.extend_from_slice(tag);
    push_i32(data, payload.len() as i32, big);
    data.extend_from_slice(&vec![0xaa; pw]); // old address: consumed, ignored
    push_i32(data, 0, big); // type index: consumed, ignored
    push_i32(data, 1, big); // struct count: consumed, ignored
    data.extend_from_slice(payload);
}

fn scene_payload(name: &str, start: i32, end: i32, big: bool) -> Vec<u8> {
    let mut payload = Vec::new();
    push_i32(&mut payload, start, big);
    push_i32(&mut payload, end, big);
    let mut field = name.as_bytes().to_vec();
    while field.len() < 64 {
        field.push(0);
    }
    payload.extend_from_slice(&field);
    payload
}

/// A whole file with the given scene blocks, a skippable stranger block in
/// front, and the end tag behind.
fn file_with_scenes(pw_marker: u8, endian_marker: u8, scenes: &[(&str, i32, i32)]) -> Vec<u8> {
    let pw = if pw_marker == PW8 { 8 } else { 4 };
    let big = endian_marker == BIG;
    let mut data = header(pw_marker, endian_marker, b"279");
    push_block(&mut data, b"GLOB", pw, big, &[0x55; 17]);
    for (name, start, end) in scenes {
        push_block(&mut data, b"REND", pw, big, &scene_payload(name, *start, *end, big));
    }
    push_block(&mut data, b"ENDB", pw, big, &[]);
    data
}

fn gzipped(raw: &[u8]) -> Vec<u8> {
    let mut enc = flate2::write::GzEncoder::new(Vec::new(), flate2::Compression::default());
    std::io::Write::write_all(&mut enc, raw).expect("compressing test bytes failed");
    enc.finish().expect("finishing the gzip stream failed")
}

fn frames_of(table: &SceneTable, name: &str) -> (i32, i32) {
    let record = table.get(name.as_bytes()).expect("scene missing from table");
    (record.frames.start, record.frames.end)
}

#[test]
fn round_trip_single_scene() {
    let data = file_with_scenes(PW4, LITTLE, &[("Scene", 1, 250)]);
    let (version, table) = decode(&data).expect("a well-formed file decodes");
    assert_eq!(version, "2.79");
    assert_eq!(table.len(), 1);
    let record = table.get(b"Scene").expect("the scene is in the table");
    assert_eq!(record.name, "Scene");
    assert_eq!(record.frames.start, 1);
    assert_eq!(record.frames.end, 250);
    assert_eq!(record.frames.count(), 249);
    assert_eq!(record.version, "2.79");
}

#[test]
fn large_frame_values_decode_exactly() {
    let data = file_with_scenes(PW4, LITTLE, &[("Big", 0, 1048574)]);
    let (_, table) = decode(&data).expect("a well-formed file decodes");
    assert_eq!(frames_of(&table, "Big"), (0, 1048574));
    assert_eq!(table.get(b"Big").unwrap().frames.count(), 1048574);
}

#[test]
fn negative_and_extreme_frames_decode_exactly() {
    let data = file_with_scenes(PW4, LITTLE, &[("Edge", i32::MIN, i32::MAX), ("Back", 10, 3)]);
    let (_, table) = decode(&data).expect("a well-formed file decodes");
    assert_eq!(frames_of(&table, "Edge"), (i32::MIN, i32::MAX));
    assert_eq!(table.get(b"Edge").unwrap().frames.count(), 4294967295i64);
    assert_eq!(frames_of(&table, "Back"), (10, 3));
    assert_eq!(table.get(b"Back").unwrap().frames.count(), -7);
}

#[test]
fn distinct_scenes_all_appear() {
    let data = file_with_scenes(PW4, LITTLE, &[("A", 1, 10), ("B", 2, 20), ("C", 3, 30)]);
    let (_, table) = decode(&data).expect("a well-formed file decodes");
    assert_eq!(table.len(), 3);
    assert_eq!(frames_of(&table, "A"), (1, 10));
    assert_eq!(frames_of(&table, "B"), (2, 20));
    assert_eq!(frames_of(&table, "C"), (3, 30));
}

#[test]
fn later_scene_with_same_name_wins() {
    let data = file_with_scenes(PW4, LITTLE, &[("Scene", 1, 100), ("Scene", 5, 500)]);
    let (_, table) = decode(&data).expect("a well-formed file decodes");
    assert_eq!(table.len(), 1);
    assert_eq!(frames_of(&table, "Scene"), (5, 500));
}

#[test]
fn eight_byte_pointers_and_big_endian_decode_alike() {
    for (pw_marker, endian_marker) in
        [(PW4, LITTLE), (PW4, BIG), (PW8, LITTLE), (PW8, BIG)] {
        let data = file_with_scenes(pw_marker, endian_marker, &[("Scene", 7, 77)]);
        let (version, table) = decode(&data).expect("a well-formed file decodes");
        assert_eq!(version, "2.79");
        assert_eq!(frames_of(&table, "Scene"), (7, 77));
    }
}

#[test]
fn gzip_wrapped_file_decodes_identically() {
    let raw = file_with_scenes(PW4, LITTLE, &[("Scene", 1, 250), ("Other", 3, 9)]);
    let wrapped = gzipped(&raw);
    assert_ne!(raw, wrapped);
    let (v1, t1) = decode(&raw).expect("the raw file decodes");
    let (v2, t2) = decode(&wrapped).expect("the wrapped file decodes");
    assert_eq!(v1, v2);
    assert_eq!(t1.len(), t2.len());
    for name in ["Scene", "Other"] {
        assert_eq!(frames_of(&t1, name), frames_of(&t2, name));
    }
}

#[test]
fn decoding_twice_gives_identical_results() {
    let data = file_with_scenes(PW4, LITTLE, &[("Scene", 1, 250), ("Other", 3, 9)]);
    let (v1, t1) = decode(&data).expect("the file decodes");
    let (v2, t2) = decode(&data).expect("the file decodes again");
    assert_eq!(v1, v2);
    assert_eq!(t1.len(), t2.len());
    for name in ["Scene", "Other"] {
        assert_eq!(frames_of(&t1, name), frames_of(&t2, name));
    }
}

#[test]
fn zero_scenes_is_success() {
    let data = file_with_scenes(PW4, LITTLE, &[]);
    let (version, table) = decode(&data).expect("a file without scenes decodes");
    assert_eq!(version, "2.79");
    assert_eq!(table.len(), 0);
}

#[test]
fn stream_may_end_without_end_tag() {
    let mut data = header(PW4, LITTLE, b"279");
    push_block(&mut data, b"REND", 4, false, &scene_payload("Scene", 1, 2, false));
    let (_, table) = decode(&data).expect("exhausting the stream is success");
    assert_eq!(frames_of(&table, "Scene"), (1, 2));
}

#[test]
fn blocks_after_end_tag_are_ignored() {
    let mut data = file_with_scenes(PW4, LITTLE, &[("Scene", 1, 2)]);
    data.extend_from_slice(b"garbage after the end tag \xff\xfe");
    let (_, table) = decode(&data).expect("the walk stops at the end tag");
    assert_eq!(table.len(), 1);
}

#[test]
fn truncated_scene_block_is_an_error() {
    let full = file_with_scenes(PW4, LITTLE, &[("Scene", 1, 250)]);
    // Cut into the scene block's name field: 20 bytes of end block removed,
    // then a further 30 to land inside the payload.
    let cut = full.len() - 20 - 30;
    assert_eq!(parse_scenes(&full[..cut]).unwrap_err(), DecodeError::TruncatedBlock);
}

#[test]
fn truncated_skip_block_is_an_error() {
    let mut data = header(PW4, LITTLE, b"279");
    // A stranger block announcing more payload than the stream holds.
    push_block(&mut data, b"GLOB", 4, false, &[0x55; 4]);
    data.truncate(data.len() - 2);
    assert_eq!(parse_scenes(&data).unwrap_err(), DecodeError::TruncatedBlock);
}

#[test]
fn tag_cut_short_is_an_error() {
    let mut data = header(PW4, LITTLE, b"279");
    push_block(&mut data, b"GLOB", 4, false, &[0x55; 4]);
    data.extend_from_slice(b"RE");
    assert_eq!(parse_scenes(&data).unwrap_err(), DecodeError::TruncatedBlock);
}

#[test]
fn negative_payload_size_is_an_error() {
    let mut data = header(PW4, LITTLE, b"279");
    data.extend_from_slice(b"GLOB");
    push_i32(&mut data, -8, false);
    data.extend_from_slice(&[0u8; 12]); // old address, type index, struct count
    data.extend_from_slice(&[0u8; 8]);
    assert_eq!(parse_scenes(&data).unwrap_err(), DecodeError::TruncatedBlock);
}

#[test]
fn invalid_utf8_scene_name_is_an_encoding_error() {
    let mut data = header(PW4, LITTLE, b"279");
    let mut payload = scene_payload("Scene", 1, 2, false);
    payload[8] = 0xff; // a byte no UTF-8 name can start with
    push_block(&mut data, b"REND", 4, false, &payload);
    push_block(&mut data, b"ENDB", 4, false, &[]);
    assert_eq!(parse_scenes(&data).unwrap_err(), DecodeError::EncodingError);
}

#[test]
fn interior_nul_survives_trimming() {
    let mut data = header(PW4, LITTLE, b"279");
    let mut payload = Vec::new();
    push_i32(&mut payload, 1, false);
    push_i32(&mut payload, 2, false);
    let mut field = b"A\x00B".to_vec();
    while field.len() < 64 {
        field.push(0);
    }
    payload.extend_from_slice(&field);
    push_block(&mut data, b"REND", 4, false, &payload);
    push_block(&mut data, b"ENDB", 4, false, &[]);
    let (_, table) = decode(&data).expect("the file decodes");
    let record = table.get(b"A\x00B").expect("the interior NUL is part of the name");
    assert_eq!(record.name, "A\u{0}B");
    assert!(table.get(b"A").is_none());
}
