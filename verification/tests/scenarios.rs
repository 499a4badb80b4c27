use ogz_decoder::cursor::Parser;
use ogz_decoder::types::{EdgeFace, EntityType, Vector3, VariableType};

fn push_u16(out: &mut Vec<u8>, v: u16) {
    out.extend_from_slice(&v.to_le_bytes());
}

fn push_u32(out: &mut Vec<u8>, v: u32) {
    out.extend_from_slice(&v.to_le_bytes());
}

fn push_i32(out: &mut Vec<u8>, v: i32) {
    out.extend_from_slice(&v.to_le_bytes());
}

/// Header with the given section counts, followed by the game ident
/// "fps\0x", its trailing byte, the four reserved bytes, and an empty
/// texture list.
fn preamble(num_vars: u32, num_ents: u32, num_vslots: u32) -> Vec<u8> {
    let mut b = Vec::new();
    b.extend_from_slice(b"OCTA");
    push_u32(&mut b, 33); // version
    push_u32(&mut b, 36); // header size
    push_u32(&mut b, 1024); // world size
    push_u32(&mut b, num_ents);
    push_u32(&mut b, 0); // pvs
    push_u32(&mut b, 0); // lightmaps
    push_u32(&mut b, 0); // blend map
    push_u32(&mut b, num_vars);
    push_u32(&mut b, num_vslots);
    b
}

fn game_ident_and_mru(b: &mut Vec<u8>) {
    b.push(5);
    b.extend_from_slice(b"fps\0x");
    b.push(0); // trailing byte after the ident
    b.extend_from_slice(&[0, 0, 0, 0]); // reserved block
    push_u16(b, 0); // empty texture MRU
}

/// One solid leaf cube: save byte 2 and six zero textures.
fn push_solid_cube(b: &mut Vec<u8>) {
    b.push(0x02);
    for _ in 0..6 {
        push_u16(b, 0);
    }
}

#[test]
fn minimal_empty_map() {
    let mut bytes = preamble(0, 0, 0);
    game_ident_and_mru(&mut bytes);
    for _ in 0..8 {
        push_solid_cube(&mut bytes);
    }
    let total = bytes.len();
    let mut parser = Parser::new(bytes);
    let map = parser.parse_map().expect("a well-formed minimal map decodes");
    assert_eq!(map.header.magic_field, b"OCTA".to_vec());
    assert_eq!(map.header.version, 33);
    assert_eq!(map.header.world_size, 1024);
    assert!(map.vars.is_empty());
    assert!(map.entities.is_empty());
    assert!(map.vslots.is_empty());
    assert!(map.texture_mru.is_empty());
    assert_eq!(map.game_ident, b"fps\0x".to_vec());
    assert_eq!(map.map.len(), 8);
    for root in &map.map {
        let cube = root.as_ref().expect("all roots decoded");
        assert_eq!(
            cube.edge_face,
            EdgeFace::Face(vec![0x8080_8080, 0x8080_8080, 0x8080_8080])
        );
        assert_eq!(cube.textures, vec![0u16; 6]);
        assert_eq!(cube.children.len(), 8);
        assert!(cube.children.iter().all(|c| c.is_none()));
    }
    // The cursor ends exactly at the end of the consumed sections.
    assert_eq!(parser.position, total);
}

#[test]
fn single_int_variable() {
    let mut bytes = preamble(1, 0, 0);
    bytes.push(0x00); // type byte: int
    push_u16(&mut bytes, 7);
    bytes.extend_from_slice(b"gravity");
    push_u32(&mut bytes, 200);
    game_ident_and_mru(&mut bytes);
    for _ in 0..8 {
        push_solid_cube(&mut bytes);
    }
    let mut parser = Parser::new(bytes);
    let map = parser.parse_map().expect("map with one variable decodes");
    assert_eq!(map.vars.len(), 1);
    assert_eq!(map.vars[0].name, b"gravity".to_vec());
    assert_eq!(map.vars[0].name_len, 7);
    assert_eq!(map.vars[0].var_type, VariableType::Int(200));
}

#[test]
fn spotlight_entity() {
    let mut bytes = Vec::new();
    bytes.extend_from_slice(&1.0f32.to_le_bytes());
    bytes.extend_from_slice(&2.0f32.to_le_bytes());
    bytes.extend_from_slice(&3.0f32.to_le_bytes());
    for attr in [10u16, 20, 30, 40, 50] {
        push_u16(&mut bytes, attr);
    }
    bytes.push(0x07); // Spotlight
    bytes.push(0x00); // reserved
    let mut parser = Parser::new(bytes);
    let ent = parser.parse_entity().expect("entity record decodes");
    assert_eq!(ent.ent_type, EntityType::Spotlight);
    assert_eq!(f32::from_bits(ent.position.x), 1.0);
    assert_eq!(f32::from_bits(ent.position.y), 2.0);
    assert_eq!(f32::from_bits(ent.position.z), 3.0);
    assert_eq!(
        (ent.attr1, ent.attr2, ent.attr3, ent.attr4, ent.attr5),
        (10, 20, 30, 40, 50)
    );
}

#[test]
fn vslot_delta_run_and_clamped_rotation() {
    let mut bytes = Vec::new();
    push_i32(&mut bytes, -3); // a run of three default vslots
    push_i32(&mut bytes, 0x04); // changed: the rotation bit
    push_i32(&mut bytes, 1); // previous-slot index
    push_i32(&mut bytes, 9); // rotation 9, clamped to 7
    let mut parser = Parser::new(bytes);
    let vslots = parser.parse_vslots(4).expect("vslot section decodes");
    assert_eq!(vslots.len(), 4);
    for (i, slot) in vslots.iter().enumerate().take(3) {
        assert_eq!(slot.index, i);
        assert_eq!(slot.rotation, 0);
        assert_eq!(slot.changed, 0);
        assert_eq!(f32::from_bits(slot.scale), 1.0);
        assert_eq!(f32::from_bits(slot.alpha_front), 0.5);
        assert_eq!(f32::from_bits(slot.alpha_back), 0.0);
    }
    assert_eq!(vslots[3].index, 3);
    assert_eq!(vslots[3].changed, 0x04);
    assert_eq!(vslots[3].rotation, 7);
    assert_eq!(vslots[3].next, Some(1));
}

#[test]
fn normal_cube_with_edges() {
    let mut bytes = Vec::new();
    bytes.push(0x03); // Normal: explicit edges
    let edges: Vec<u8> = (1..=12).collect();
    bytes.extend_from_slice(&edges);
    for t in [10u16, 20, 30, 40, 50, 60] {
        push_u16(&mut bytes, t);
    }
    let mut parser = Parser::new(bytes);
    let mut bases = Parser::new_cubes(None, None);
    let base = bases.remove(0);
    let mut failed = false;
    let cube = parser
        .parse_cube(base, &Vector3 { x: 0, y: 0, z: 0 }, 512, &mut failed)
        .expect("normal cube decodes");
    assert!(!failed);
    assert_eq!(cube.edge_face, EdgeFace::Edge((1..=12).collect()));
    assert_eq!(cube.textures, vec![10, 20, 30, 40, 50, 60]);
    assert!(cube.children.iter().all(|c| c.is_none()));
}

#[test]
fn interior_node_with_eight_solid_children() {
    let mut bytes = Vec::new();
    bytes.push(0x00); // children follow
    for _ in 0..8 {
        push_solid_cube(&mut bytes);
    }
    let mut parser = Parser::new(bytes);
    let mut bases = Parser::new_cubes(None, None);
    let base = bases.remove(0);
    let mut failed = false;
    let cube = parser
        .parse_cube(base, &Vector3 { x: 0, y: 0, z: 0 }, 512, &mut failed)
        .expect("interior cube decodes");
    assert!(!failed);
    assert_eq!(cube.children.len(), 8);
    for child in &cube.children {
        let child = child.as_ref().expect("all children present");
        assert_eq!(
            child.edge_face,
            EdgeFace::Face(vec![0x8080_8080, 0x8080_8080, 0x8080_8080])
        );
        assert!(child.children.iter().all(|c| c.is_none()));
    }
    assert_eq!(parser.cube_count, 8);
}
