use std::io::Write;

use flate2::write::GzEncoder;
use flate2::Compression;
use ogz_decoder::driver::parse_map;

fn push_u16(out: &mut Vec<u8>, v: u16) {
    out.extend_from_slice(&v.to_le_bytes());
}

fn push_u32(out: &mut Vec<u8>, v: u32) {
    out.extend_from_slice(&v.to_le_bytes());
}

fn minimal_map_image() -> Vec<u8> {
    let mut b = Vec::new();
    b.extend_from_slice(b"OCTA");
    push_u32(&mut b, 33);
    push_u32(&mut b, 36);
    push_u32(&mut b, 1024);
    for _ in 0..6 {
        push_u32(&mut b, 0);
    }
    b.push(3);
    b.extend_from_slice(b"fps");
    b.push(0);
    b.extend_from_slice(&[0, 0, 0, 0]);
    push_u16(&mut b, 0);
    for _ in 0..8 {
        b.push(0x02);
        for _ in 0..6 {
            push_u16(&mut b, 0);
        }
    }
    b
}

fn gzip(payload: &[u8]) -> Vec<u8> {
    let mut encoder = GzEncoder::new(Vec::new(), Compression::default());
    encoder.write_all(payload).expect("compressing in memory cannot fail");
    encoder.finish().expect("finishing the stream cannot fail")
}

#[test]
fn compressed_map_decodes() {
    let compressed = gzip(&minimal_map_image());
    let map = parse_map(&compressed).expect("a compressed well-formed map decodes");
    assert_eq!(map.header.world_size, 1024);
    assert_eq!(map.map.len(), 8);
}

#[test]
fn corrupt_archive_yields_nothing() {
    let mut compressed = gzip(&minimal_map_image());
    let last = compressed.len() - 1;
    compressed[last] ^= 0xFF; // break the stream checksum
    assert!(parse_map(&compressed).is_none());
}

#[test]
fn uncompressed_bytes_yield_nothing() {
    // The raw image is not a gzip archive, so the decoder never even
    // sees the payload.
    assert!(parse_map(&minimal_map_image()).is_none());
}

#[test]
fn compressed_garbage_payload_yields_nothing() {
    let compressed = gzip(b"not a map at all");
    assert!(parse_map(&compressed).is_none());
}
