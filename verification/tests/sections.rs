use ogz_decoder::cursor::Parser;
use ogz_decoder::error::DecodeError;

fn push_u16(out: &mut Vec<u8>, v: u16) {
    out.extend_from_slice(&v.to_le_bytes());
}

fn push_u32(out: &mut Vec<u8>, v: u32) {
    out.extend_from_slice(&v.to_le_bytes());
}

#[test]
fn game_ident_consumes_its_trailing_byte() {
    let mut bytes = Vec::new();
    bytes.push(3);
    bytes.extend_from_slice(b"fps");
    bytes.push(0xAB); // trailing byte, discarded
    bytes.push(0xCD);
    let mut parser = Parser::new(bytes);
    assert_eq!(parser.parse_game_ident(), Ok(b"fps".to_vec()));
    assert_eq!(parser.read_byte(), Ok(0xCD));
}

#[test]
fn texture_mru_list() {
    let mut bytes = Vec::new();
    push_u16(&mut bytes, 3);
    push_u16(&mut bytes, 11);
    push_u16(&mut bytes, 22);
    push_u16(&mut bytes, 33);
    let mut parser = Parser::new(bytes);
    assert_eq!(parser.parse_texture_mru(), Ok(vec![11, 22, 33]));
    let mut short = Parser::new(vec![2, 0, 5]);
    assert_eq!(short.parse_texture_mru(), Err(DecodeError::EndOfInput));
}

#[test]
fn lightmap_record_without_unlit_coordinates() {
    let mut bytes = Vec::new();
    bytes.push(0x00); // diffuse, three bytes per pixel
    bytes.extend(std::iter::repeat(0x5Au8).take(3 * 512 * 512));
    let mut parser = Parser::new(bytes);
    let maps = parser.parse_lightmaps(1).expect("one lightmap decodes");
    assert_eq!(maps.len(), 1);
    assert_eq!(maps[0].map_type, 0);
    assert_eq!(maps[0].bpp, 3);
    assert_eq!((maps[0].unlit_x, maps[0].unlit_y), (0, 0));
    assert_eq!(maps[0].data.len(), 3 * 512 * 512);
    assert_eq!(maps[0].data[0], 0x5A);
}

#[test]
fn lightmap_record_with_alpha_and_unlit_coordinates() {
    let mut bytes = Vec::new();
    bytes.push(0x80 | 0x11); // unlit coordinates, alpha kind 1
    push_u16(&mut bytes, 7);
    push_u16(&mut bytes, 9);
    bytes.extend(std::iter::repeat(0u8).take(4 * 512 * 512));
    let mut parser = Parser::new(bytes);
    let maps = parser.parse_lightmaps(1).expect("alpha lightmap decodes");
    assert_eq!(maps[0].map_type, 0x11);
    assert_eq!(maps[0].bpp, 4);
    assert_eq!((maps[0].unlit_x, maps[0].unlit_y), (7, 9));
    assert_eq!(maps[0].data.len(), 4 * 512 * 512);
}

#[test]
fn pvs_with_water_planes() {
    let mut bytes = Vec::new();
    push_u32(&mut bytes, 0x8000_0004); // top bit: a water plane table follows
    push_u32(&mut bytes, 2); // two water planes
    bytes.extend_from_slice(&10i32.to_le_bytes());
    bytes.extend_from_slice(&(-4i32).to_le_bytes());
    push_u16(&mut bytes, 3); // two per-cluster lengths
    push_u16(&mut bytes, 5);
    let total = bytes.len();
    let mut parser = Parser::new(bytes);
    assert_eq!(parser.parse_pvs(2), Ok(()));
    assert_eq!(parser.position, total);
}

#[test]
fn pvs_without_water_planes() {
    let mut bytes = Vec::new();
    push_u32(&mut bytes, 16);
    push_u16(&mut bytes, 8);
    let total = bytes.len();
    let mut parser = Parser::new(bytes);
    assert_eq!(parser.parse_pvs(1), Ok(()));
    assert_eq!(parser.position, total);
    let mut short = Parser::new(vec![1, 0, 0]);
    assert_eq!(short.parse_pvs(0), Err(DecodeError::EndOfInput));
}
