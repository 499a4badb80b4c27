use vstd::prelude::*;

use crate::types::{Entity, Float4, SlotShaderParam, Vector3, VSlot};

verus! {

// Texture-slot and shader bookkeeping that a renderer would fill in
// after decoding. The decoder itself only ever leaves these absent
// (a freshly parsed vslot has no slot), but the shapes are part of the
// library's data model. Float fields are raw IEEE-754 bit patterns,
// as everywhere in this crate.

#[derive(Debug, PartialEq)]
pub struct Slot {
    pub slot: Box<Option<Slot>>,
    pub index: i32,
    pub sts: Vec<Tex>,
    pub shader: Shader,
    pub params: Vec<SlotShaderParam>,
    pub variants: Vec<VSlot>,
    pub loaded: bool,
    pub tex_mask: u32,
    pub auto_grass: i8,
    pub grass_tex: Texture,
    pub thumbnail: Texture,
    pub layer_mask_name: Vec<u8>,
    pub layer_mask_mode: i32,
    pub layer_mask_scale: u32,
    pub layer_mask: ImageData,
}

#[derive(Debug, Clone, PartialEq, Eq)]
pub struct ImageData {
    pub width: i32,
    pub h: i32,
    pub bpp: i32,
    pub levels: i32,
    pub align: i32,
    pub pitch: i32,
    pub compressed: u32,
}

#[derive(Debug, Clone, PartialEq)]
pub struct Tex {
    pub tex_type: i32,
    pub texture: Texture,
    pub name: Vec<u8>,
    pub combined: i32,
}

#[derive(Debug, Clone, PartialEq)]
pub struct Texture {
    pub name: Vec<u8>,
    pub tex_type: i32,
    pub width: i32,
    pub height: i32,
    pub xs: i32,
    pub ys: i32,
    pub bpp: i32,
    pub clamp: i32,
    pub mipmap: bool,
    pub can_reduce: bool,
    pub id: u32,
    pub alpha_mask: Vec<u8>,
}

#[derive(Debug, PartialEq)]
pub struct Shader {
    pub last_shader: Box<Option<Shader>>,
    pub name: Vec<u8>,
    pub vs_str: Vec<u8>,
    pub ps_str: Vec<u8>,
    pub defer: Vec<u8>,
    pub shader_type: i32,
    pub program: u32,
    pub vs_obj: u32,
    pub ps_obj: u32,
    pub default_params: Vec<SlotShaderParamState>,
    pub global_params: Vec<GlobalShaderParamUse>,
    pub local_params: Vec<LocalShaderParamState>,
    pub local_param_remap: Vec<u8>,
    pub detail_shader: Box<Option<Shader>>,
    pub variant_shader: Box<Option<Shader>>,
    pub alt_shader: Box<Option<Shader>>,
    pub fast_shader: FastShaderSet,
    pub variants: Vec<Box<Option<Shader>>>,
    pub variant_rows: u16,
    pub standard: bool,
    pub forced: bool,
    pub used: bool,
    pub reuse_vs: Box<Option<Shader>>,
    pub reuse_ps: Box<Option<Shader>>,
    pub uniform_locs: Vec<Box<Option<UniformLoc>>>,
    pub attrib_locs: Vec<Box<Option<AttribLoc>>>,
}

/// One fallback shader per supported level of shader detail.
#[derive(Debug, PartialEq)]
pub struct FastShaderSet {
    pub detail0: Box<Option<Shader>>,
    pub detail1: Box<Option<Shader>>,
    pub detail2: Box<Option<Shader>>,
}

#[derive(Debug, Clone, PartialEq, Eq)]
pub struct SlotShaderParamState {
    pub value: Float4,
    pub name: Vec<u8>,
    pub location: i32,
    pub size: i32,
    pub format: u32,
}

#[derive(Debug, Clone, PartialEq)]
pub struct GlobalShaderParamState {
    pub name: Vec<u8>,
    pub value: GlobalShaderParamStateValue,
    pub version: i32,
    pub next_version: i32,
}

/// A uniform value of one of the four storage classes a shader can
/// take; float vectors are kept as raw bit patterns.
#[derive(Debug, Clone, PartialEq)]
pub enum GlobalShaderParamStateValue {
    Float(Vec<u32>),
    Int(Vec<i32>),
    UInt(Vec<u32>),
    UChar(Vec<u8>),
}

#[derive(Debug, Clone, PartialEq)]
pub struct GlobalShaderParamUse {
    pub param: GlobalShaderParamState,
    pub version: i32,
    pub location: i32,
    pub size: i32,
    pub format: u32,
}

#[derive(Debug, Clone, PartialEq, Eq)]
pub struct LocalShaderParamState {
    pub name: Vec<u8>,
    pub location: i32,
    pub size: i32,
    pub format: u32,
}

#[derive(Debug, Clone, Copy, PartialEq, Eq)]
pub struct ShaderParamBinding {
    pub location: i32,
    pub size: i32,
    pub format: u32,
}

#[derive(Debug, Clone, PartialEq, Eq)]
pub struct AttribLoc {
    pub name: Vec<u8>,
    pub loc: i32,
}

#[derive(Debug, Clone, PartialEq, Eq)]
pub struct UniformLoc {
    pub name: Vec<u8>,
    pub block_name: Vec<u8>,
    pub loc: i32,
    pub verison: i32,
    pub binding: i32,
    pub stride: i32,
    pub offset: i32,
    pub size: i32,
}

#[derive(Debug, Clone, Copy, PartialEq, Eq)]
pub enum TextureType {
    Image,
    CubeMap,
    Type,
    Stub,
    Transient,
    Compressed,
    Alpha,
    Mirror,
    Flags,
}

#[derive(Debug, Clone, PartialEq)]
pub struct WaterPlane {
    pub height: i32,
    pub material_surfaces: Option<Vec<MaterialSurface>>,
}

impl WaterPlane {
    /// A water plane at height zero with no surfaces attached.
    pub fn new() -> (r: WaterPlane)
        ensures
            r.height == 0,
            r.material_surfaces is None,
    {
        WaterPlane { height: 0, material_surfaces: None }
    }
}

#[derive(Debug, Clone, PartialEq)]
pub struct MaterialSurface {
    pub pos: Vector3<i32>,
    pub c_size: u16,
    pub r_size: u16,
    pub material: u16,
    pub skip: u16,
    pub orient: u8,
    pub visible: u8,
    pub index_depth: IndexDepth,
    pub light_envmap_ends: LightEnvMapEnds,
}

#[derive(Debug, Clone, Copy, PartialEq, Eq)]
pub enum IndexDepth {
    Index(i16),
    Depth(i16),
}

#[derive(Debug, Clone, PartialEq)]
pub enum LightEnvMapEnds {
    Light(Entity),
    EnvMap(u16),
    Ends(u8),
}

} // verus!
