use painter::woff::{
    ReadStream, WriteStream, BufferOffset, convert_be_to_u16, convert_be_to_u32,
    convert_u16_to_u8s_be, convert_u32_to_u8s_be, compute_search_fields, decompress_woff,
};
use painter::font::check_type;

#[test]
fn byte_conversions_round_trip() {
    assert_eq!(convert_u16_to_u8s_be(0x1234), [0x12, 0x34]);
    assert_eq!(convert_u32_to_u8s_be(0x0102_0304), [1, 2, 3, 4]);
    assert_eq!(convert_be_to_u16(vec![0x12, 0x34]), 0x1234);
    assert_eq!(convert_be_to_u32(vec![1, 2, 3, 4]), 0x0102_0304);
    // Missing bytes read as zero.
    assert_eq!(convert_be_to_u16(vec![0x12]), 0x1200);
    assert_eq!(convert_be_to_u32(vec![]), 0);
}

#[test]
fn read_stream_advances_even_past_the_end() {
    let data = [1u8, 2, 3];
    let mut rs = ReadStream::new(&data);
    assert_eq!(rs.read_vec(2), Some(vec![1, 2]));
    assert_eq!(rs.read_vec(2), None);
    assert_eq!(rs.offset, 4);
}

#[test]
fn write_stream_appends() {
    let mut ws = WriteStream::new();
    ws.write(vec![1, 2]);
    ws.write(vec![3]);
    assert_eq!(ws.offset, 3);
    assert_eq!(ws.into_data(), vec![1, 2, 3]);
}

#[test]
fn to_be() {
    assert_eq!(BufferOffset(0x0102_0304).to_be(), vec![1, 2, 3, 4]);
}

#[test]
fn search_fields_match_the_binary_search_layout() {
    // Nine tables: the largest power-of-two range is eight entries of
    // sixteen bytes, its logarithm three, and the shift covers the rest.
    let (sr, es, rs) = compute_search_fields(9);
    assert_eq!(sr, 128);
    assert_eq!(es, 3);
    assert_eq!(rs, 9 * 16 - 128);
    let (sr1, es1, rs1) = compute_search_fields(1);
    assert_eq!((sr1, es1, rs1), (16, 0, 0));
}

fn be32(x: u32) -> [u8; 4] {
    convert_u32_to_u8s_be(x)
}

fn build_woff(tables: &[(&[u8; 4], Vec<u8>, Option<Vec<u8>>)]) -> Vec<u8> {
    // A minimal packed container: header, directory, then each table's
    // bytes (compressed where given).
    let n = tables.len() as u16;
    let mut out = Vec::new();
    out.extend_from_slice(b"wOFF");
    out.extend_from_slice(&be32(0x0001_0000));
    out.extend_from_slice(&be32(0)); // length, unused by the unpacker
    out.extend_from_slice(&convert_u16_to_u8s_be(n));
    out.extend_from_slice(&[0, 0]); // reserved
    out.extend_from_slice(&be32(0)); // total sfnt size, unused
    out.extend_from_slice(&[0, 1, 0, 0]); // versions
    out.extend_from_slice(&be32(0)); // meta offset
    out.extend_from_slice(&be32(0)); // meta length
    out.extend_from_slice(&be32(0)); // meta original length
    out.extend_from_slice(&be32(0)); // private offset
    out.extend_from_slice(&be32(0)); // private length
    assert_eq!(out.len(), 44);
    let mut data_section = Vec::new();
    let mut dir = Vec::new();
    let mut data_offset = 44 + 20 * tables.len();
    for (tag, orig, packed) in tables {
        let stored: &Vec<u8> = match packed {
            Some(p) => p,
            None => orig,
        };
        dir.extend_from_slice(*tag);
        dir.extend_from_slice(&be32(data_offset as u32));
        dir.extend_from_slice(&be32(stored.len() as u32));
        dir.extend_from_slice(&be32(orig.len() as u32));
        dir.extend_from_slice(&be32(0xDEAD_BEEF));
        data_section.extend_from_slice(stored);
        data_offset += stored.len();
    }
    out.extend_from_slice(&dir);
    out.extend_from_slice(&data_section);
    out
}

#[test]
fn woff_test() {
    // One four-byte table stored as it is: the unpacked font is the sfnt
    // header, one directory entry and the table bytes.
    let table = vec![9u8, 8, 7, 6];
    let woff = build_woff(&[(b"cmap", table.clone(), None)]);
    let out = decompress_woff(&woff).unwrap();
    println!("ok, {:?}", out.len());
    assert_eq!(&out[0..4], &be32(0x0001_0000));
    assert_eq!(&out[4..6], &convert_u16_to_u8s_be(1));
    assert_eq!(&out[6..8], &convert_u16_to_u8s_be(16));
    assert_eq!(&out[8..10], &convert_u16_to_u8s_be(0));
    assert_eq!(&out[10..12], &convert_u16_to_u8s_be(0));
    assert_eq!(&out[12..16], b"cmap");
    assert_eq!(&out[16..20], &be32(0xDEAD_BEEF));
    assert_eq!(&out[20..24], &be32(28)); // 12 + 16
    assert_eq!(&out[24..28], &be32(4));
    assert_eq!(&out[28..32], &table[..]);
    assert_eq!(out.len(), 32);
}

#[test]
fn compressed_table_is_inflated() {
    // A compressed table must come back as its original bytes: the
    // deflate step cannot hand its input through unchanged.
    let orig: Vec<u8> = (0u8..64).chain(0u8..64).collect();
    let packed = miniz_oxide::deflate::compress_to_vec_zlib(&orig, 6);
    assert_ne!(packed, orig);
    let woff = build_woff(&[(b"glyf", orig.clone(), Some(packed))]);
    let out = decompress_woff(&woff).unwrap();
    assert_eq!(&out[28..28 + orig.len()], &orig[..]);
}

#[test]
fn rejected_stream_yields_nothing() {
    // A table claiming compression with garbage bytes is rejected whole.
    let garbage = vec![0xFFu8, 0xFF, 0xFF];
    let woff = build_woff(&[(b"glyf", vec![1, 2, 3, 4], Some(garbage))]);
    assert!(decompress_woff(&woff).is_none());
}

#[test]
fn truncated_container_yields_nothing() {
    let woff = build_woff(&[(b"cmap", vec![1, 2, 3, 4], None)]);
    assert!(decompress_woff(&woff[0..20]).is_none());
    assert!(decompress_woff(&woff[0..50]).is_none());
}

#[test]
fn padding_aligns_tables() {
    // A five-byte table is padded to the next four-byte boundary and the
    // second table's directory offset points past the padding.
    let woff = build_woff(&[
        (b"aaaa", vec![1, 2, 3, 4, 5], None),
        (b"bbbb", vec![9], None),
    ]);
    let out = decompress_woff(&woff).unwrap();
    let first_off = 12 + 32;
    assert_eq!(&out[first_off..first_off + 5], &[1, 2, 3, 4, 5]);
    assert_eq!(&out[first_off + 5..first_off + 8], &[0, 0, 0]);
    // Second entry's recorded offset: aligned up.
    assert_eq!(&out[28 + 8..28 + 12], &be32((first_off + 8) as u32));
}

#[test]
fn container_kinds_are_sniffed() {
    assert_eq!(check_type(&[0x00, 0x01, 0x00, 0x00, 9]), Some(("ttf".to_string(), false)));
    assert_eq!(check_type(b"OTTOxxxx"), Some(("otf".to_string(), false)));
    assert_eq!(check_type(b"wOFF\x00\x01\x00\x00"), Some(("ttf".to_string(), true)));
    assert_eq!(check_type(b"wOFFOTTO"), Some(("otf".to_string(), true)));
    assert_eq!(check_type(b"wOFFxxxx"), None);
    assert_eq!(check_type(b"junk"), None);
    assert_eq!(check_type(&[1, 2]), None);
}
