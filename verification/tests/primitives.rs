use ogz_decoder::cursor::Parser;
use ogz_decoder::error::DecodeError;
use ogz_decoder::slots::WaterPlane;
use ogz_decoder::types::{LightMap, VSlot};

#[test]
fn little_endian_reads() {
    let mut parser = Parser::new(vec![0x34, 0x12, 0x78, 0x56, 0x34, 0x12, 0xFF, 0xFF, 0xFF, 0xFF]);
    assert_eq!(parser.parse_to_u16(), Ok(0x1234));
    assert_eq!(parser.parse_to_u32(), Ok(0x1234_5678));
    assert_eq!(parser.parse_to_i32(), Ok(-1));
    assert_eq!(parser.position, 10);
    assert_eq!(parser.parse_to_u16(), Err(DecodeError::EndOfInput));
}

#[test]
fn float_bits_round_trip_through_the_cursor() {
    let mut bytes = Vec::new();
    bytes.extend_from_slice(&3.5f32.to_le_bytes());
    bytes.extend_from_slice(&(-0.25f32).to_le_bytes());
    let mut parser = Parser::new(bytes);
    assert_eq!(
        parser.parse_to_f32_bits().map(f32::from_bits),
        Ok(3.5f32)
    );
    assert_eq!(
        parser.parse_to_f32_bits().map(f32::from_bits),
        Ok(-0.25f32)
    );
}

#[test]
fn byte_strings_and_skipping() {
    let mut parser = Parser::new(vec![b'a', b'b', b'c', 1, 2, 3, 4]);
    assert_eq!(parser.parse_to_string(3), Ok(b"abc".to_vec()));
    assert_eq!(parser.skip(2), Ok(()));
    assert_eq!(parser.read_byte(), Ok(3));
    assert_eq!(parser.skip(2), Err(DecodeError::EndOfInput));
    assert_eq!(parser.read_blob(1), Ok(vec![4]));
}

#[test]
fn shader_param_names_are_interned_once() {
    let mut parser = Parser::new(Vec::new());
    let a = parser.get_shader_param_name(b"glow".to_vec(), true);
    let b = parser.get_shader_param_name(b"glow".to_vec(), true);
    let c = parser.get_shader_param_name(b"specular".to_vec(), true);
    assert_eq!(a, b"glow".to_vec());
    assert_eq!(b, b"glow".to_vec());
    assert_eq!(c, b"specular".to_vec());
    assert_eq!(parser.shader_param_names.len(), 2);
}

#[test]
fn vslot_with_every_section() {
    let mut bytes = Vec::new();
    // SHPARAM: one parameter "tint" with four values.
    bytes.extend_from_slice(&1u16.to_le_bytes());
    bytes.extend_from_slice(&4u16.to_le_bytes());
    bytes.extend_from_slice(b"tint");
    for v in [0.25f32, 0.5, 0.75, 1.0] {
        bytes.extend_from_slice(&v.to_le_bytes());
    }
    bytes.extend_from_slice(&2.0f32.to_le_bytes()); // scale
    bytes.extend_from_slice(&5i32.to_le_bytes()); // rotation
    bytes.extend_from_slice(&7i32.to_le_bytes()); // offset x
    bytes.extend_from_slice(&(-9i32).to_le_bytes()); // offset y
    bytes.extend_from_slice(&0.125f32.to_le_bytes()); // scroll x
    bytes.extend_from_slice(&0.0625f32.to_le_bytes()); // scroll y
    bytes.extend_from_slice(&3i32.to_le_bytes()); // layer
    bytes.extend_from_slice(&0.75f32.to_le_bytes()); // alpha front
    bytes.extend_from_slice(&0.25f32.to_le_bytes()); // alpha back
    for v in [0.1f32, 0.2, 0.3] {
        bytes.extend_from_slice(&v.to_le_bytes()); // colour scale
    }
    let mut parser = Parser::new(bytes);
    let slot = parser.parse_vslot(0, 0xFF).expect("full vslot decodes");
    assert_eq!(slot.params.len(), 1);
    assert_eq!(slot.params[0].name, b"tint".to_vec());
    assert_eq!(slot.params[0].loc, -1);
    assert_eq!(f32::from_bits(slot.params[0].values.x), 0.25);
    assert_eq!(f32::from_bits(slot.params[0].values.w), 1.0);
    assert_eq!(f32::from_bits(slot.scale), 2.0);
    assert_eq!(slot.rotation, 5);
    assert_eq!((slot.offset.x, slot.offset.y), (7, -9));
    assert_eq!(f32::from_bits(slot.scroll.x), 0.125);
    assert_eq!(f32::from_bits(slot.scroll.y), 0.0625);
    assert_eq!(slot.layer, 3);
    assert_eq!(f32::from_bits(slot.alpha_front), 0.75);
    assert_eq!(f32::from_bits(slot.alpha_back), 0.25);
    assert_eq!(f32::from_bits(slot.color_scale.x), 0.1);
    assert_eq!(f32::from_bits(slot.color_scale.z), 0.3);
    assert_eq!(parser.shader_param_names, vec![b"tint".to_vec()]);
}

#[test]
fn negative_rotation_clamps_to_zero() {
    let mut bytes = Vec::new();
    bytes.extend_from_slice(&(-5i32).to_le_bytes());
    let mut parser = Parser::new(bytes);
    let slot = parser.parse_vslot(0, 0x04).expect("rotation-only vslot decodes");
    assert_eq!(slot.rotation, 0);
}

#[test]
fn default_vslot_fields() {
    let slot = VSlot::new(None, 7);
    assert_eq!(slot.index, 7);
    assert_eq!(slot.next, None);
    assert_eq!(slot.changed, 0);
    assert!(slot.params.is_empty());
    assert!(!slot.linked);
    assert_eq!(f32::from_bits(slot.scale), 1.0);
    assert_eq!(slot.rotation, 0);
    assert_eq!((slot.offset.x, slot.offset.y), (0, 0));
    assert_eq!(f32::from_bits(slot.scroll.x), 0.0);
    assert_eq!(slot.layer, 0);
    assert_eq!(f32::from_bits(slot.alpha_front), 0.5);
    assert_eq!(f32::from_bits(slot.alpha_back), 0.0);
    assert_eq!(f32::from_bits(slot.color_scale.x), 1.0);
    assert_eq!(f32::from_bits(slot.glow_color.z), 1.0);
}

#[test]
fn fresh_lightmap_and_water_plane() {
    let lm = LightMap::new();
    assert_eq!(lm.map_type, 0);
    assert_eq!(lm.bpp, 3);
    assert_eq!(lm.tex, -1);
    assert_eq!((lm.offset_x, lm.offset_y), (-1, -1));
    assert_eq!((lm.unlit_x, lm.unlit_y), (-1, -1));
    assert!(lm.data.is_empty());
    let wp = WaterPlane::new();
    assert_eq!(wp.height, 0);
    assert!(wp.material_surfaces.is_none());
}
