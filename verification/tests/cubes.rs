use ogz_decoder::cursor::Parser;
use ogz_decoder::types::{EdgeFace, Vector3};

fn push_u16(out: &mut Vec<u8>, v: u16) {
    out.extend_from_slice(&v.to_le_bytes());
}

fn parse_one_cube(bytes: Vec<u8>) -> (Parser, ogz_decoder::types::Cube, bool) {
    let mut parser = Parser::new(bytes);
    let mut bases = Parser::new_cubes(None, None);
    let base = bases.remove(0);
    let mut failed = false;
    let cube = parser
        .parse_cube(base, &Vector3 { x: 0, y: 0, z: 0 }, 512, &mut failed)
        .expect("cube decodes");
    (parser, cube, failed)
}

#[test]
fn material_and_merged_sections() {
    let mut bytes = Vec::new();
    bytes.push(0x03 | 0x40 | 0x80); // edges, material and merged present
    bytes.extend_from_slice(&[0u8; 12]);
    for _ in 0..6 {
        push_u16(&mut bytes, 2);
    }
    push_u16(&mut bytes, 7); // material
    bytes.push(9); // merged
    let total = bytes.len();
    let (parser, cube, failed) = parse_one_cube(bytes);
    assert!(!failed);
    assert_eq!(cube.material, 7);
    assert_eq!(cube.merged, 9);
    assert_eq!(parser.position, total);
}

#[test]
fn lod_cube_keeps_leaf_data_and_recurses() {
    let mut bytes = Vec::new();
    bytes.push(0x04); // LOD: leaf sections, then children
    for _ in 0..6 {
        push_u16(&mut bytes, 3);
    }
    for _ in 0..8 {
        bytes.push(0x01); // Empty child
        for _ in 0..6 {
            push_u16(&mut bytes, 0);
        }
    }
    let total = bytes.len();
    let (parser, cube, failed) = parse_one_cube(bytes);
    assert!(!failed);
    // A LOD cube keeps the face data it started from.
    assert_eq!(cube.edge_face, EdgeFace::Face(vec![0, 0, 0]));
    assert_eq!(cube.textures, vec![3u16; 6]);
    assert_eq!(cube.children.len(), 8);
    for child in &cube.children {
        let child = child.as_ref().expect("all children present");
        assert_eq!(child.edge_face, EdgeFace::Face(vec![0, 0, 0]));
    }
    assert_eq!(parser.position, total);
}

#[test]
fn surface_block_with_quad_shortcuts_is_skipped_exactly() {
    let mut bytes = Vec::new();
    bytes.push(0x02 | 0x20); // solid with a surface block
    for _ in 0..6 {
        push_u16(&mut bytes, 0);
    }
    bytes.push(0x01); // surface mask: face 0 only
    bytes.push(4); // total vertex count byte (not interpreted)
    // Face 0 header: lightmap ids, vertex mask, vertex count.
    bytes.push(0);
    bytes.push(0);
    bytes.push(0xCF); // xyz, uv, norm present; quad and norm shortcuts taken
    bytes.push(4); // four layer vertices, no duplicate-uv bit
    // Shortcut data: 4 u16 for the quad xyz, 4 u16 for the quad uv,
    // 1 u16 for the shared normal.
    bytes.extend_from_slice(&[0u8; 18]);
    let total = bytes.len();
    let (parser, _cube, failed) = parse_one_cube(bytes);
    assert!(!failed);
    assert_eq!(parser.position, total);
}

#[test]
fn surface_block_with_per_vertex_data_is_skipped_exactly() {
    let mut bytes = Vec::new();
    bytes.push(0x02 | 0x20);
    for _ in 0..6 {
        push_u16(&mut bytes, 0);
    }
    bytes.push(0x01); // face 0 only
    bytes.push(6);
    bytes.push(0);
    bytes.push(0);
    bytes.push(0xC4); // xyz, uv, norm present; no shortcut bits
    bytes.push(0x83); // three layer vertices, duplicate bit set
    // Three vertices of xyz (4 bytes), uv (4 bytes), normal (2 bytes),
    // then three 2-byte blend entries.
    bytes.extend_from_slice(&[0u8; 36]);
    let total = bytes.len();
    let (parser, _cube, failed) = parse_one_cube(bytes);
    assert!(!failed);
    assert_eq!(parser.position, total);
}

#[test]
fn two_faces_in_one_surface_block() {
    let mut bytes = Vec::new();
    bytes.push(0x02 | 0x20);
    for _ in 0..6 {
        push_u16(&mut bytes, 0);
    }
    bytes.push(0b0010_0001); // faces 0 and 5
    bytes.push(0);
    // Face 0: no vertices at all, nothing beyond the header.
    bytes.extend_from_slice(&[0, 0, 0, 0]);
    // Face 5: one vertex with only a normal.
    bytes.push(0);
    bytes.push(0);
    bytes.push(0x80); // norm present, no shortcut
    bytes.push(1); // one layer vertex
    bytes.extend_from_slice(&[0u8; 2]); // the per-vertex normal
    let total = bytes.len();
    let (parser, _cube, failed) = parse_one_cube(bytes);
    assert!(!failed);
    assert_eq!(parser.position, total);
}
