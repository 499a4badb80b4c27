use vstd::prelude::*;

use crate::slots::Slot;

verus! {

// Floating-point fields of the wire format are carried as their raw
// IEEE-754 little-endian bit patterns (`u32`). The decoder never
// interprets these values; it only moves them from the stream into the
// structures below, so the bit pattern is a faithful and lossless
// representation.

/// Bit pattern of the 32-bit float 1.0.
pub const F32_ONE_BITS: u32 = 0x3F80_0000;

/// Bit pattern of the 32-bit float 0.5.
pub const F32_HALF_BITS: u32 = 0x3F00_0000;

/// Bit pattern of the 32-bit float 0.0.
pub const F32_ZERO_BITS: u32 = 0;

#[derive(Debug, Clone, PartialEq, Eq)]
pub struct Vector3<T> {
    pub x: T,
    pub y: T,
    pub z: T,
}

#[derive(Debug, Clone, PartialEq, Eq)]
pub struct Vector2<T> {
    pub x: T,
    pub y: T,
}

/// The fixed-size map header; ten fields in wire order.
#[derive(Debug, Clone, PartialEq, Eq)]
pub struct MapHeader {
    pub magic_field: Vec<u8>,
    pub version: u32,
    pub header_size: u32,
    pub world_size: u32,
    pub number_ents: u32,
    pub number_pvs: u32,
    pub number_lightmaps: u32,
    pub blend_map: u32,
    pub number_vars: u32,
    pub number_vslots: u32,
}

/// Body of a game-variable record, selected by its type byte:
/// 0 reads a 32-bit integer, 1 a 32-bit float (kept as raw bits),
/// 2 a length-prefixed byte string.
#[derive(Debug, Clone, PartialEq, Eq)]
pub enum VariableType {
    Int(u32),
    Float(u32),
    String(u16, Vec<u8>),
}

#[derive(Debug, Clone, PartialEq, Eq)]
pub struct Variable {
    pub var_type: VariableType,
    pub name_len: u16,
    pub name: Vec<u8>,
}

/// Entity position: three float bit patterns (x, y, z).
#[derive(Debug, Clone, Copy, PartialEq, Eq)]
pub struct Position {
    pub x: u32,
    pub y: u32,
    pub z: u32,
}

/// The closed enumeration of entity kinds, in wire order 0..32.
#[derive(Debug, Clone, Copy, PartialEq, Eq)]
pub enum EntityType {
    Empty,
    Light,
    MapModel,
    PlayerStart,
    EnvMap,
    Particles,
    Sound,
    Spotlight,
    IHealth,
    IAmmo,
    RaceStart,
    RaceFinish,
    RaceCheckpoint,
    PH4,
    PH5,
    PH6,
    PH7,
    PH8,
    PH9,
    Teleport,
    TeleDest,
    PH10,
    PH11,
    JumpPad,
    Base,
    PH12,
    PH13,
    PH14,
    PH15,
    PH16,
    Flag,
    MaxEntTypes,
}

#[derive(Debug, Clone, Copy, PartialEq, Eq)]
pub struct Entity {
    pub position: Position,
    pub attr1: u16,
    pub attr2: u16,
    pub attr3: u16,
    pub attr4: u16,
    pub attr5: u16,
    pub ent_type: EntityType,
}

/// Four float bit patterns, the value vector of a shader parameter.
#[derive(Debug, Clone, Copy, PartialEq, Eq)]
pub struct Float4 {
    pub x: u32,
    pub y: u32,
    pub z: u32,
    pub w: u32,
}

/// A shader parameter attached to a vslot; `loc` is always -1 at parse
/// time and the four values are float bit patterns.
#[derive(Debug, Clone, PartialEq, Eq)]
pub struct SlotShaderParam {
    pub name: Vec<u8>,
    pub loc: i32,
    pub values: Float4,
}

/// A virtual texture slot, decoded as a delta over defaults selected by
/// the bits of `changed`. `next` is a non-owning edge into the owning
/// vslot vector, filled by a post-pass; it is either absent or a valid
/// index into that vector.
#[derive(Debug, PartialEq)]
pub struct VSlot {
    pub slot: Option<Slot>,
    pub next: Option<usize>,
    pub index: usize,
    pub changed: i32,
    pub params: Vec<SlotShaderParam>,
    pub linked: bool,
    pub scale: u32,
    pub rotation: i32,
    pub offset: Vector2<i32>,
    pub scroll: Vector2<u32>,
    pub layer: i32,
    pub alpha_front: u32,
    pub alpha_back: u32,
    pub color_scale: Vector3<u32>,
    pub glow_color: Vector3<u32>,
}

impl VSlot {
    /// A vslot at `index` holding only the default delta values: no
    /// links, scale 1.0, rotation 0, no offset or scroll, layer 0,
    /// alpha 0.5 front and 0.0 back, white colour and glow scales.
    pub fn new(slot: Option<Slot>, index: usize) -> (r: VSlot)
        ensures
            r@ == crate::model::default_vslot_v(index as int),
            r.slot == slot,
    {
        let r = VSlot {
            slot,
            next: None,
            index,
            changed: 0,
            params: Vec::new(),
            linked: false,
            scale: F32_ONE_BITS,
            rotation: 0,
            offset: Vector2 { x: 0, y: 0 },
            scroll: Vector2 { x: F32_ZERO_BITS, y: F32_ZERO_BITS },
            layer: 0,
            alpha_front: F32_HALF_BITS,
            alpha_back: F32_ZERO_BITS,
            color_scale: Vector3 { x: F32_ONE_BITS, y: F32_ONE_BITS, z: F32_ONE_BITS },
            glow_color: Vector3 { x: F32_ONE_BITS, y: F32_ONE_BITS, z: F32_ONE_BITS },
        };
        proof {
            assert(r@ =~= crate::model::default_vslot_v(index as int));
        }
        r
    }
}

/// An octree node. `children` always has 8 slots in -Z-Y-X order (the
/// three low bits of the slot index give the X, Y, Z signs, X varying
/// fastest); they are either all absent (a leaf) or all present (an
/// interior or LOD node) in a well-formed tree.
#[derive(Debug, PartialEq)]
pub struct Cube {
    pub children: Vec<Option<Box<Cube>>>,
    pub edge_face: EdgeFace,
    pub textures: Vec<u16>,
    pub material: u16,
    pub merged: u8,
    pub escaped_visible: EscapedVisible,
    pub cube_ext: Option<CubeExtInfo>,
}

#[derive(Debug, Clone, Copy, PartialEq, Eq)]
pub struct CubeExtInfo {
    pub max_verts: u8,
    pub tjoints: i32,
}

/// Shape of a cube: 12 edge bytes, or 3 packed 32-bit face words.
#[derive(Debug, Clone, PartialEq, Eq)]
pub enum EdgeFace {
    Edge(Vec<u8>),
    Face(Vec<u32>),
}

#[derive(Debug, Clone, Copy, PartialEq, Eq)]
pub enum EscapedVisible {
    Escaped(u8),
    Visible(u8),
}

#[derive(Debug, Clone, Copy, PartialEq, Eq)]
pub enum GeometryType {
    Chidren,
    Empty,
    Solid,
    Normal,
    LODCube,
}

#[derive(Debug, Clone, Copy, PartialEq, Eq)]
pub enum MaterialType {
    Air,
    Water,
    Lava,
    Glass,
}

#[derive(Debug, Clone, Copy, PartialEq, Eq)]
pub enum MaterialClipping {
    NoClip,
    Clip,
    GameSpecificClip,
}

#[derive(Debug, Clone, Copy, PartialEq, Eq)]
pub struct Geometry {
    pub geo_type: GeometryType,
    pub mat_type: MaterialType,
    pub death: bool,
    pub edit_only: bool,
}

#[derive(Debug, Clone, PartialEq, Eq)]
pub struct LightMap {
    pub map_type: i32,
    pub bpp: i32,
    pub tex: i32,
    pub offset_x: i32,
    pub offset_y: i32,
    pub lightmaps: u8,
    pub lumels: u8,
    pub unlit_x: i32,
    pub unlit_y: i32,
    pub data: Vec<u8>,
}

impl LightMap {
    /// A diffuse 3-byte-per-pixel lightmap with no texture bound yet.
    pub fn new() -> (r: LightMap)
        ensures
            r.map_type == 0,
            r.bpp == 3,
            r.tex == -1,
            r.offset_x == -1,
            r.offset_y == -1,
            r.lightmaps == 0,
            r.lumels == 0,
            r.unlit_x == -1,
            r.unlit_y == -1,
            r.data@ == Seq::<u8>::empty(),
    {
        LightMap {
            map_type: 0,
            bpp: 3,
            tex: -1,
            offset_x: -1,
            offset_y: -1,
            lightmaps: 0,
            lumels: 0,
            unlit_x: -1,
            unlit_y: -1,
            data: Vec::new(),
        }
    }
}

#[derive(Debug, Clone, Copy, PartialEq, Eq)]
pub struct PVSData {
    pub offset: i32,
    pub len: i32,
}

/// The decoded map root: everything the stream describes, in decode order.
#[derive(Debug, PartialEq)]
pub struct GameMap {
    pub header: MapHeader,
    pub vars: Vec<Variable>,
    pub game_ident: Vec<u8>,
    pub texture_mru: Vec<u16>,
    pub entities: Vec<Entity>,
    pub vslots: Vec<VSlot>,
    pub map: Vec<Option<Box<Cube>>>,
}

} // verus!
