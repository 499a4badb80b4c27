use ogz_decoder::cursor::Parser;
use ogz_decoder::error::DecodeError;
use ogz_decoder::types::{EdgeFace, Vector3};

fn push_u16(out: &mut Vec<u8>, v: u16) {
    out.extend_from_slice(&v.to_le_bytes());
}

fn push_u32(out: &mut Vec<u8>, v: u32) {
    out.extend_from_slice(&v.to_le_bytes());
}

#[test]
fn empty_input_is_end_of_input() {
    let mut parser = Parser::new(Vec::new());
    assert_eq!(parser.parse_map(), Err(DecodeError::EndOfInput));
}

#[test]
fn wrong_magic_is_rejected() {
    let mut bytes = Vec::new();
    bytes.extend_from_slice(b"XCTA");
    push_u32(&mut bytes, 33);
    let mut parser = Parser::new(bytes);
    assert_eq!(parser.parse_header(), Err(DecodeError::BadMagic));
}

#[test]
fn unsupported_version_is_rejected() {
    let mut bytes = Vec::new();
    bytes.extend_from_slice(b"OCTA");
    push_u32(&mut bytes, 32);
    for _ in 0..8 {
        push_u32(&mut bytes, 0);
    }
    let mut parser = Parser::new(bytes);
    assert_eq!(parser.parse_header(), Err(DecodeError::UnsupportedVersion));
}

#[test]
fn truncated_header_is_end_of_input() {
    let mut bytes = Vec::new();
    bytes.extend_from_slice(b"OCTA");
    push_u32(&mut bytes, 33);
    push_u32(&mut bytes, 36);
    let mut parser = Parser::new(bytes);
    assert_eq!(parser.parse_header(), Err(DecodeError::EndOfInput));
}

#[test]
fn unknown_variable_type_carries_the_tag() {
    let mut bytes = Vec::new();
    bytes.push(0x03);
    push_u16(&mut bytes, 1);
    bytes.push(b'x');
    push_u32(&mut bytes, 0);
    let mut parser = Parser::new(bytes);
    assert_eq!(
        parser.parse_variable(),
        Err(DecodeError::UnknownVariableType(3))
    );
}

#[test]
fn unknown_entity_kind_carries_the_byte() {
    let mut bytes = vec![0u8; 22];
    bytes.push(32); // first kind value outside the enumeration
    bytes.push(0);
    let mut parser = Parser::new(bytes);
    assert_eq!(
        parser.parse_entity(),
        Err(DecodeError::UnknownEntityKind(32))
    );
}

#[test]
fn surface_block_past_the_end_is_truncated_surface() {
    let mut bytes = Vec::new();
    bytes.push(0x23); // Normal geometry plus a surface block
    bytes.extend_from_slice(&[0u8; 12]); // edges
    for _ in 0..6 {
        push_u16(&mut bytes, 0); // textures
    }
    bytes.push(0x01); // surface mask: face 0 present
    bytes.push(0x00); // total vertex count
    bytes.push(0x00); // only one of the four face header bytes
    let mut parser = Parser::new(bytes);
    let mut bases = Parser::new_cubes(None, None);
    let base = bases.remove(0);
    let mut failed = false;
    assert_eq!(
        parser.parse_cube(base, &Vector3 { x: 0, y: 0, z: 0 }, 512, &mut failed),
        Err(DecodeError::TruncatedSurface)
    );
}

#[test]
fn unknown_cube_kind_is_a_soft_failure() {
    let bytes = vec![0x07u8]; // low three bits outside 0..=4
    let mut parser = Parser::new(bytes);
    let mut bases = Parser::new_cubes(None, None);
    let base = bases.remove(0);
    let mut failed = false;
    let cube = parser
        .parse_cube(base, &Vector3 { x: 0, y: 0, z: 0 }, 512, &mut failed)
        .expect("a bad cube kind does not abort");
    assert!(failed);
    // The cube comes back exactly as it was handed in.
    assert_eq!(cube.edge_face, EdgeFace::Face(vec![0, 0, 0]));
    assert_eq!(cube.textures, vec![1u16; 6]);
    assert!(cube.children.iter().all(|c| c.is_none()));
}

#[test]
fn soft_failure_stops_the_descent() {
    let mut bytes = Vec::new();
    // First child is solid, second has a bad kind; the block stops.
    bytes.push(0x02);
    for _ in 0..6 {
        push_u16(&mut bytes, 0);
    }
    bytes.push(0x07);
    let mut parser = Parser::new(bytes);
    let mut failed = false;
    let kids = parser
        .parse_children(&Vector3 { x: 0, y: 0, z: 0 }, 512, &mut failed)
        .expect("soft failure still yields the block");
    assert!(failed);
    assert_eq!(kids.len(), 8);
    assert!(kids[0].is_some());
    assert!(kids[1].is_some()); // the failing cube itself is kept
    assert!(kids[2..].iter().all(|c| c.is_none()));
}
