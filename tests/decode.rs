use ase_chunk::chunk::{bitmap_len, raw_pixel_len, CelContent, Chunk, ChunkData, MaskChunk};
use ase_chunk::{ByteReader, ChunkError, Header};

fn chunk_bytes(tag: u16, payload: &[u8]) -> Vec<u8> {
    let size = (payload.len() + 6) as u32;
    let mut v = size.to_le_bytes().to_vec();
    v.extend_from_slice(&tag.to_le_bytes());
    v.extend_from_slice(payload);
    v
}

fn string_field(s: &str) -> Vec<u8> {
    let mut v = (s.len() as u16).to_le_bytes().to_vec();
    v.extend_from_slice(s.as_bytes());
    v
}

fn mask_payload(x: i16, y: i16, width: u16, height: u16, name: &str, bitmap: &[u8]) -> Vec<u8> {
    let mut v = Vec::new();
    v.extend_from_slice(&x.to_le_bytes());
    v.extend_from_slice(&y.to_le_bytes());
    v.extend_from_slice(&width.to_le_bytes());
    v.extend_from_slice(&height.to_le_bytes());
    v.extend_from_slice(&[0xEE; 8]);
    v.extend_from_slice(&string_field(name));
    v.extend_from_slice(bitmap);
    v
}

const RGBA: Header = Header { color_depth: 32 };

fn decode(bytes: Vec<u8>) -> (Result<Chunk, ChunkError>, usize) {
    let mut r = ByteReader::new(bytes);
    let c = Chunk::from_read(&mut r, &RGBA);
    (c, r.position())
}

#[test]
fn mask_eight_by_two() {
    let bytes = chunk_bytes(0x2016, &mask_payload(-3, 517, 8, 2, "m", &[0xF0, 0x0F]));
    let len = bytes.len();
    let (c, pos) = decode(bytes);
    let c = c.unwrap();
    assert_eq!(c.chunk_size as usize, len);
    assert_eq!(pos, len);
    match c.chunk_data {
        ChunkData::MaskChunk(m) => {
            assert_eq!(m.x_position, -3);
            assert_eq!(m.y_position, 517);
            assert_eq!(m.width, 8);
            assert_eq!(m.height, 2);
            assert_eq!(m.mask_name, "m");
            assert_eq!(m.bitmap_data, vec![0xF0, 0x0F]);
        }
        _ => panic!("not a mask"),
    }
}

#[test]
fn mask_width_zero_has_empty_bitmap() {
    // Rows of zero pixels take no bytes: height * ((width + 7) / 8) == 0,
    // where height * (width + 7) / 8 would have given 1.
    assert_eq!(bitmap_len(0, 2), 0);
    let mut payload = mask_payload(0, 0, 0, 2, "z", &[]);
    payload.push(0xAB);
    let mut r = ByteReader::new(payload.clone());
    let m = MaskChunk::from_read(&mut r).unwrap();
    assert!(m.bitmap_data.is_empty());
    assert_eq!(r.position(), payload.len() - 1);
}

#[test]
fn mask_bitmap_rows_round_up() {
    // Each row rounds up on its own: height * (width + 7) / 8 would give 3 here.
    assert_eq!(bitmap_len(8, 2), 2);
    assert_eq!(bitmap_len(9, 3), 6);
    assert_eq!(bitmap_len(1, 1), 1);
    assert_eq!(bitmap_len(65535, 65535), 65535 * 8192);
}

#[test]
fn unknown_tag_is_rejected() {
    let (c, _) = decode(chunk_bytes(0x1234, &[1, 2, 3]));
    assert_eq!(c.err(), Some(ChunkError::UnknownChunkType(0x1234)));
    let (c, _) = decode(chunk_bytes(0x2021, &[]));
    assert_eq!(c.err(), Some(ChunkError::UnknownChunkType(0x2021)));
}

#[test]
fn truncated_mask_is_a_read_error() {
    let bytes = chunk_bytes(0x2016, &mask_payload(1, 2, 8, 2, "mask", &[1, 2]));
    for k in 0..bytes.len() {
        let (c, _) = decode(bytes[..k].to_vec());
        assert_eq!(c.err(), Some(ChunkError::StreamRead), "prefix of {} bytes", k);
    }
}

#[test]
fn truncated_layer_is_a_read_error() {
    let bytes = chunk_bytes(0x2004, &layer_payload(2, "tiles"));
    for k in 0..bytes.len() {
        let (c, _) = decode(bytes[..k].to_vec());
        assert_eq!(c.err(), Some(ChunkError::StreamRead), "prefix of {} bytes", k);
    }
}

#[test]
fn decoding_twice_gives_equal_records() {
    let bytes = chunk_bytes(0x2016, &mask_payload(4, 5, 12, 3, "twice", &[9, 8, 7, 6, 5, 4]));
    let mut r1 = ByteReader::new(bytes.clone());
    let mut r2 = ByteReader::new(bytes);
    let a = Chunk::from_read(&mut r1, &RGBA).unwrap();
    let b = Chunk::from_read(&mut r2, &RGBA).unwrap();
    assert_eq!(r1.position(), r2.position());
    assert_eq!(a.chunk_size, b.chunk_size);
    match (a.chunk_data, b.chunk_data) {
        (ChunkData::MaskChunk(x), ChunkData::MaskChunk(y)) => {
            assert_eq!(x.x_position, y.x_position);
            assert_eq!(x.y_position, y.y_position);
            assert_eq!(x.width, y.width);
            assert_eq!(x.height, y.height);
            assert_eq!(x.mask_name, y.mask_name);
            assert_eq!(x.bitmap_data, y.bitmap_data);
        }
        _ => panic!("not masks"),
    }
}

#[test]
fn invalid_utf8_name_is_a_read_error() {
    let mut payload = mask_payload(0, 0, 0, 0, "", &[]);
    let n = payload.len();
    payload[n - 2] = 1;
    payload.push(0xFF);
    let (c, _) = decode(chunk_bytes(0x2016, &payload));
    assert_eq!(c.err(), Some(ChunkError::StreamRead));
}

#[test]
fn integers_are_little_endian() {
    let mut r = ByteReader::new(vec![0x34, 0x12, 0xFE, 0xFF, 0x78, 0x56, 0x34, 0x12, 0xFF, 0xFF, 0xFF, 0x7F, 0x00, 0x00, 0x00, 0x80]);
    assert_eq!(r.read_u16(), Ok(0x1234));
    assert_eq!(r.read_i16(), Ok(-2));
    assert_eq!(r.read_u32(), Ok(0x1234_5678));
    assert_eq!(r.read_i32(), Ok(0x7FFF_FFFF));
    assert_eq!(r.read_i32(), Ok(i32::MIN));
    assert_eq!(r.read_u8(), Err(ChunkError::StreamRead));
    assert_eq!(r.position(), 16);
}

#[test]
fn skip_past_end_fails() {
    let mut r = ByteReader::new(vec![1, 2, 3]);
    assert_eq!(r.skip(2), Ok(()));
    assert_eq!(r.skip(2), Err(ChunkError::StreamRead));
    assert_eq!(r.read_u8(), Ok(3));
}

fn layer_payload(layer_type: u16, name: &str) -> Vec<u8> {
    let mut v = Vec::new();
    for f in [0x0003u16, layer_type, 1, 320, 240, 5] {
        v.extend_from_slice(&f.to_le_bytes());
    }
    v.push(200);
    v.extend_from_slice(&[0; 3]);
    v.extend_from_slice(&string_field(name));
    if layer_type == 2 {
        v.extend_from_slice(&7u32.to_le_bytes());
    }
    v
}

#[test]
fn layer_chunk_fields() {
    let bytes = chunk_bytes(0x2004, &layer_payload(0, "Background"));
    let len = bytes.len();
    let (c, pos) = decode(bytes);
    assert_eq!(pos, len);
    match c.unwrap().chunk_data {
        ChunkData::LayerChunk(l) => {
            assert_eq!(l.flags, 3);
            assert_eq!(l.layer_type, 0);
            assert_eq!(l.child_level, 1);
            assert_eq!(l.default_width, 320);
            assert_eq!(l.default_height, 240);
            assert_eq!(l.blend_mode, 5);
            assert_eq!(l.opacity, 200);
            assert_eq!(l.layer_name, "Background");
            assert_eq!(l.tileset_index, None);
        }
        _ => panic!("not a layer"),
    }
}

#[test]
fn tilemap_layer_has_tileset_index() {
    let bytes = chunk_bytes(0x2004, &layer_payload(2, "tiles"));
    let len = bytes.len();
    let (c, pos) = decode(bytes);
    assert_eq!(pos, len);
    match c.unwrap().chunk_data {
        ChunkData::LayerChunk(l) => assert_eq!(l.tileset_index, Some(7)),
        _ => panic!("not a layer"),
    }
}

fn cel_prefix(cel_type: u16) -> Vec<u8> {
    let mut v = Vec::new();
    v.extend_from_slice(&2u16.to_le_bytes());
    v.extend_from_slice(&(-10i16).to_le_bytes());
    v.extend_from_slice(&20i16.to_le_bytes());
    v.push(128);
    v.extend_from_slice(&cel_type.to_le_bytes());
    v.extend_from_slice(&(-1i16).to_le_bytes());
    v.extend_from_slice(&[0; 5]);
    v
}

#[test]
fn raw_cel_is_sized_by_color_depth() {
    assert_eq!(raw_pixel_len(2, 3, &Header { color_depth: 32 }), 24);
    assert_eq!(raw_pixel_len(2, 3, &Header { color_depth: 16 }), 12);
    assert_eq!(raw_pixel_len(2, 3, &Header { color_depth: 8 }), 6);
    let mut payload = cel_prefix(0);
    payload.extend_from_slice(&2u16.to_le_bytes());
    payload.extend_from_slice(&1u16.to_le_bytes());
    payload.extend_from_slice(&[1, 2, 3, 4]);
    let bytes = chunk_bytes(0x2005, &payload);
    let mut r = ByteReader::new(bytes.clone());
    let c = Chunk::from_read(&mut r, &Header { color_depth: 16 }).unwrap();
    assert_eq!(r.position(), bytes.len());
    match c.chunk_data {
        ChunkData::CelChunk(cel) => {
            assert_eq!(cel.layer_index, 2);
            assert_eq!(cel.x_position, -10);
            assert_eq!(cel.y_position, 20);
            assert_eq!(cel.opacity, 128);
            assert_eq!(cel.cel_type, 0);
            assert_eq!(cel.z_index, -1);
            match cel.content {
                CelContent::Raw { width, height, pixels } => {
                    assert_eq!((width, height), (2, 1));
                    assert_eq!(pixels, vec![1, 2, 3, 4]);
                }
                _ => panic!("not raw"),
            }
        }
        _ => panic!("not a cel"),
    }
    let (c, _) = decode(bytes);
    assert_eq!(c.err(), Some(ChunkError::StreamRead));
}

#[test]
fn linked_cel() {
    let mut payload = cel_prefix(1);
    payload.extend_from_slice(&9u16.to_le_bytes());
    let (c, _) = decode(chunk_bytes(0x2005, &payload));
    match c.unwrap().chunk_data {
        ChunkData::CelChunk(cel) => match cel.content {
            CelContent::Linked { frame_position } => assert_eq!(frame_position, 9),
            _ => panic!("not linked"),
        },
        _ => panic!("not a cel"),
    }
}

#[test]
fn compressed_cel_runs_to_chunk_end() {
    let mut payload = cel_prefix(2);
    payload.extend_from_slice(&16u16.to_le_bytes());
    payload.extend_from_slice(&16u16.to_le_bytes());
    payload.extend_from_slice(&[0x78, 0x9C, 1, 2, 3]);
    let mut bytes = chunk_bytes(0x2005, &payload);
    let len = bytes.len();
    bytes.extend_from_slice(&[0xAA, 0xBB]);
    let (c, pos) = decode(bytes);
    assert_eq!(pos, len);
    match c.unwrap().chunk_data {
        ChunkData::CelChunk(cel) => match cel.content {
            CelContent::Compressed { width, height, data } => {
                assert_eq!((width, height), (16, 16));
                assert_eq!(data, vec![0x78, 0x9C, 1, 2, 3]);
            }
            _ => panic!("not compressed"),
        },
        _ => panic!("not a cel"),
    }
}

#[test]
fn compressed_tilemap_cel() {
    let mut payload = cel_prefix(3);
    for f in [4u16, 5, 32] {
        payload.extend_from_slice(&f.to_le_bytes());
    }
    for m in [0x1fff_ffffu32, 0x2000_0000, 0x4000_0000, 0x8000_0000] {
        payload.extend_from_slice(&m.to_le_bytes());
    }
    payload.extend_from_slice(&[0; 10]);
    payload.extend_from_slice(&[5, 6]);
    let (c, _) = decode(chunk_bytes(0x2005, &payload));
    match c.unwrap().chunk_data {
        ChunkData::CelChunk(cel) => match cel.content {
            CelContent::CompressedTilemap { width, height, bits_per_tile, tile_id_mask, x_flip_mask, y_flip_mask, diagonal_flip_mask, data } => {
                assert_eq!((width, height, bits_per_tile), (4, 5, 32));
                assert_eq!(tile_id_mask, 0x1fff_ffff);
                assert_eq!(x_flip_mask, 0x2000_0000);
                assert_eq!(y_flip_mask, 0x4000_0000);
                assert_eq!(diagonal_flip_mask, 0x8000_0000);
                assert_eq!(data, vec![5, 6]);
            }
            _ => panic!("not a tilemap"),
        },
        _ => panic!("not a cel"),
    }
}

#[test]
fn cel_size_below_header_is_a_read_error() {
    let mut payload = cel_prefix(2);
    payload.extend_from_slice(&[1, 0, 1, 0]);
    let mut bytes = chunk_bytes(0x2005, &payload);
    bytes[0..4].copy_from_slice(&10u32.to_le_bytes());
    let (c, _) = decode(bytes);
    assert_eq!(c.err(), Some(ChunkError::StreamRead));
}

#[test]
fn cel_extra_fields() {
    let mut payload = Vec::new();
    payload.extend_from_slice(&1u32.to_le_bytes());
    for f in [0x0001_8000i32, -0x0002_0000, 0x0010_0000, 0x0020_0000] {
        payload.extend_from_slice(&f.to_le_bytes());
    }
    payload.extend_from_slice(&[0; 16]);
    let bytes = chunk_bytes(0x2006, &payload);
    let len = bytes.len();
    let (c, pos) = decode(bytes);
    assert_eq!(pos, len);
    match c.unwrap().chunk_data {
        ChunkData::CelExtraChunk(e) => {
            assert_eq!(e.flags, 1);
            assert_eq!(e.precise_x, 0x0001_8000);
            assert_eq!(e.precise_y, -0x0002_0000);
            assert_eq!(e.width, 0x0010_0000);
            assert_eq!(e.height, 0x0020_0000);
        }
        _ => panic!("not a cel extra"),
    }
}

#[test]
fn color_profile_with_icc() {
    let mut payload = Vec::new();
    payload.extend_from_slice(&2u16.to_le_bytes());
    payload.extend_from_slice(&1u16.to_le_bytes());
    payload.extend_from_slice(&0x0002_3333i32.to_le_bytes());
    payload.extend_from_slice(&[0; 8]);
    payload.extend_from_slice(&3u32.to_le_bytes());
    payload.extend_from_slice(&[7, 8, 9]);
    let bytes = chunk_bytes(0x2007, &payload);
    let len = bytes.len();
    let (c, pos) = decode(bytes);
    assert_eq!(pos, len);
    match c.unwrap().chunk_data {
        ChunkData::ColorProfileChunk(p) => {
            assert_eq!(p.profile_type, 2);
            assert_eq!(p.flags, 1);
            assert_eq!(p.fixed_gamma, 0x0002_3333);
            assert_eq!(p.icc_profile, Some(vec![7, 8, 9]));
        }
        _ => panic!("not a color profile"),
    }
}

#[test]
fn srgb_color_profile_has_no_icc() {
    let mut payload = Vec::new();
    payload.extend_from_slice(&1u16.to_le_bytes());
    payload.extend_from_slice(&[0; 14]);
    let (c, pos) = decode(chunk_bytes(0x2007, &payload));
    assert_eq!(pos, 22);
    match c.unwrap().chunk_data {
        ChunkData::ColorProfileChunk(p) => assert_eq!(p.icc_profile, None),
        _ => panic!("not a color profile"),
    }
}

#[test]
fn path_chunk_keeps_payload() {
    let bytes = chunk_bytes(0x2017, &[1, 2, 3]);
    let (c, pos) = decode(bytes);
    assert_eq!(pos, 9);
    match c.unwrap().chunk_data {
        ChunkData::PathChunk(p) => assert_eq!(p.data, vec![1, 2, 3]),
        _ => panic!("not a path"),
    }
    let mut short = chunk_bytes(0x2017, &[]);
    short[0] = 5;
    assert_eq!(decode(short).0.err(), Some(ChunkError::StreamRead));
}

#[test]
fn frame_tags_chunk() {
    let mut payload = Vec::new();
    payload.extend_from_slice(&2u16.to_le_bytes());
    payload.extend_from_slice(&[0; 8]);
    for (from, to, dir, name) in [(0u16, 3u16, 0u8, "walk"), (4, 7, 2, "run")] {
        payload.extend_from_slice(&from.to_le_bytes());
        payload.extend_from_slice(&to.to_le_bytes());
        payload.push(dir);
        payload.extend_from_slice(&5u16.to_le_bytes());
        payload.extend_from_slice(&[0; 6]);
        payload.extend_from_slice(&[10, 20, 30, 0]);
        payload.extend_from_slice(&string_field(name));
    }
    let bytes = chunk_bytes(0x2018, &payload);
    let len = bytes.len();
    let (c, pos) = decode(bytes);
    assert_eq!(pos, len);
    match c.unwrap().chunk_data {
        ChunkData::FrameTagsChunk(t) => {
            assert_eq!(t.tags.len(), 2);
            assert_eq!((t.tags[0].from_frame, t.tags[0].to_frame, t.tags[0].direction), (0, 3, 0));
            assert_eq!((t.tags[1].from_frame, t.tags[1].to_frame, t.tags[1].direction), (4, 7, 2));
            assert_eq!(t.tags[1].repeat, 5);
            assert_eq!((t.tags[0].red, t.tags[0].green, t.tags[0].blue), (10, 20, 30));
            assert_eq!(t.tags[0].tag_name, "walk");
            assert_eq!(t.tags[1].tag_name, "run");
        }
        _ => panic!("not frame tags"),
    }
}

#[test]
fn palette_chunk_with_named_entry() {
    let mut payload = Vec::new();
    for f in [16u32, 3, 4] {
        payload.extend_from_slice(&f.to_le_bytes());
    }
    payload.extend_from_slice(&[0; 8]);
    payload.extend_from_slice(&0u16.to_le_bytes());
    payload.extend_from_slice(&[1, 2, 3, 255]);
    payload.extend_from_slice(&1u16.to_le_bytes());
    payload.extend_from_slice(&[4, 5, 6, 128]);
    payload.extend_from_slice(&string_field("sky"));
    let bytes = chunk_bytes(0x2019, &payload);
    let len = bytes.len();
    let (c, pos) = decode(bytes);
    assert_eq!(pos, len);
    match c.unwrap().chunk_data {
        ChunkData::PaletteChunk(p) => {
            assert_eq!((p.palette_size, p.first_color, p.last_color), (16, 3, 4));
            assert_eq!(p.entries.len(), 2);
            assert_eq!((p.entries[0].red, p.entries[0].green, p.entries[0].blue, p.entries[0].alpha), (1, 2, 3, 255));
            assert_eq!(p.entries[0].name, None);
            assert_eq!(p.entries[1].alpha, 128);
            assert_eq!(p.entries[1].name.as_deref(), Some("sky"));
        }
        _ => panic!("not a palette"),
    }
}

#[test]
fn user_data_text_and_color() {
    let mut payload = Vec::new();
    payload.extend_from_slice(&3u32.to_le_bytes());
    payload.extend_from_slice(&string_field("note"));
    payload.extend_from_slice(&[9, 8, 7, 6]);
    let (c, _) = decode(chunk_bytes(0x2020, &payload));
    match c.unwrap().chunk_data {
        ChunkData::UserDataChunk(u) => {
            assert_eq!(u.flags, 3);
            assert_eq!(u.text.as_deref(), Some("note"));
            assert_eq!(u.color, Some([9, 8, 7, 6]));
        }
        _ => panic!("not user data"),
    }
    let (c, pos) = decode(chunk_bytes(0x2020, &0u32.to_le_bytes()));
    assert_eq!(pos, 10);
    match c.unwrap().chunk_data {
        ChunkData::UserDataChunk(u) => {
            assert_eq!(u.text, None);
            assert_eq!(u.color, None);
        }
        _ => panic!("not user data"),
    }
}

#[test]
fn slice_with_center_and_pivot() {
    let mut payload = Vec::new();
    for f in [1u32, 3, 0] {
        payload.extend_from_slice(&f.to_le_bytes());
    }
    payload.extend_from_slice(&string_field("button"));
    payload.extend_from_slice(&2u32.to_le_bytes());
    payload.extend_from_slice(&(-4i32).to_le_bytes());
    payload.extend_from_slice(&5i32.to_le_bytes());
    payload.extend_from_slice(&30u32.to_le_bytes());
    payload.extend_from_slice(&40u32.to_le_bytes());
    payload.extend_from_slice(&1i32.to_le_bytes());
    payload.extend_from_slice(&2i32.to_le_bytes());
    payload.extend_from_slice(&3u32.to_le_bytes());
    payload.extend_from_slice(&4u32.to_le_bytes());
    payload.extend_from_slice(&15i32.to_le_bytes());
    payload.extend_from_slice(&(-20i32).to_le_bytes());
    let bytes = chunk_bytes(0x2022, &payload);
    let len = bytes.len();
    let (c, pos) = decode(bytes);
    assert_eq!(pos, len);
    match c.unwrap().chunk_data {
        ChunkData::SliceChunk(s) => {
            assert_eq!(s.flags, 3);
            assert_eq!(s.name, "button");
            assert_eq!(s.keys.len(), 1);
            let k = s.keys[0];
            assert_eq!((k.frame_number, k.x, k.y, k.width, k.height), (2, -4, 5, 30, 40));
            let center = k.center.unwrap();
            assert_eq!((center.x, center.y, center.width, center.height), (1, 2, 3, 4));
            let pivot = k.pivot.unwrap();
            assert_eq!((pivot.x, pivot.y), (15, -20));
        }
        _ => panic!("not a slice"),
    }
}

#[test]
fn old_palette_four() {
    let mut payload = Vec::new();
    payload.extend_from_slice(&2u16.to_le_bytes());
    payload.extend_from_slice(&[0, 1, 255, 128, 0]);
    payload.extend_from_slice(&[5, 2, 1, 2, 3, 4, 5, 6]);
    let bytes = chunk_bytes(0x0004, &payload);
    let len = bytes.len();
    let (c, pos) = decode(bytes);
    assert_eq!(pos, len);
    match c.unwrap().chunk_data {
        ChunkData::OldPaletteChunk4(p) => {
            assert_eq!(p.packets.len(), 2);
            assert_eq!(p.packets[0].entries_to_skip, 0);
            assert_eq!(p.packets[0].colors.len(), 1);
            assert_eq!((p.packets[0].colors[0].red, p.packets[0].colors[0].green, p.packets[0].colors[0].blue), (255, 128, 0));
            assert_eq!(p.packets[1].entries_to_skip, 5);
            assert_eq!(p.packets[1].colors[1].blue, 6);
        }
        _ => panic!("not an old palette"),
    }
}

#[test]
fn old_palette_eleven_zero_count_means_256() {
    let mut payload = Vec::new();
    payload.extend_from_slice(&1u16.to_le_bytes());
    payload.extend_from_slice(&[0, 0]);
    for i in 0..256u32 {
        payload.extend_from_slice(&[(i % 64) as u8, 0, 63]);
    }
    let bytes = chunk_bytes(0x0011, &payload);
    let len = bytes.len();
    let (c, pos) = decode(bytes.clone());
    assert_eq!(pos, len);
    match c.unwrap().chunk_data {
        ChunkData::OldPaletteChunk11(p) => {
            assert_eq!(p.packets[0].colors.len(), 256);
            assert_eq!(p.packets[0].colors[65].red, 1);
        }
        _ => panic!("not an old palette"),
    }
    let (c, _) = decode(bytes[..len - 1].to_vec());
    assert_eq!(c.err(), Some(ChunkError::StreamRead));
}

#[test]
fn consecutive_chunks_from_one_reader() {
    let mut bytes = chunk_bytes(0x2017, &[1]);
    bytes.extend_from_slice(&chunk_bytes(0x2016, &mask_payload(0, 0, 1, 1, "", &[0x80])));
    let mut r = ByteReader::new(bytes);
    assert!(matches!(Chunk::from_read(&mut r, &RGBA).unwrap().chunk_data, ChunkData::PathChunk(_)));
    assert_eq!(r.position(), 7);
    assert!(matches!(Chunk::from_read(&mut r, &RGBA).unwrap().chunk_data, ChunkData::MaskChunk(_)));
}
