use vstd::prelude::*;

use crate::types::{
    Cube, CubeExtInfo, EdgeFace, Entity, EscapedVisible, GameMap, MapHeader, SlotShaderParam,
    Float4, Variable, VariableType, VSlot, F32_HALF_BITS, F32_ONE_BITS, F32_ZERO_BITS,
};

verus! {

// Mathematical models of the decoded structures. Every contract in the
// crate speaks of these models, reached through the `View` (`@`) of the
// corresponding executable type.

/// Model of `MapHeader`.
#[verifier::ext_equal]
pub ghost struct HeaderV {
    pub magic: Seq<u8>,
    pub version: u32,
    pub header_size: u32,
    pub world_size: u32,
    pub number_ents: u32,
    pub number_pvs: u32,
    pub number_lightmaps: u32,
    pub blend_map: u32,
    pub number_vars: u32,
    pub number_vslots: u32,
}

impl View for MapHeader {
    type V = HeaderV;

    open spec fn view(&self) -> HeaderV {
        HeaderV {
            magic: self.magic_field@,
            version: self.version,
            header_size: self.header_size,
            world_size: self.world_size,
            number_ents: self.number_ents,
            number_pvs: self.number_pvs,
            number_lightmaps: self.number_lightmaps,
            blend_map: self.blend_map,
            number_vars: self.number_vars,
            number_vslots: self.number_vslots,
        }
    }
}

/// Model of `VariableType`.
#[verifier::ext_equal]
pub ghost enum VarBodyV {
    Int(u32),
    Float(u32),
    Str(u16, Seq<u8>),
}

/// Model of `Variable`.
#[verifier::ext_equal]
pub ghost struct VariableV {
    pub name: Seq<u8>,
    pub name_len: u16,
    pub body: VarBodyV,
}

impl View for Variable {
    type V = VariableV;

    open spec fn view(&self) -> VariableV {
        VariableV {
            name: self.name@,
            name_len: self.name_len,
            body: match self.var_type {
                VariableType::Int(u) => VarBodyV::Int(u),
                VariableType::Float(bits) => VarBodyV::Float(bits),
                VariableType::String(len, ref text) => VarBodyV::Str(len, text@),
            },
        }
    }
}

/// Model of `SlotShaderParam`.
#[verifier::ext_equal]
pub ghost struct ParamV {
    pub name: Seq<u8>,
    pub loc: i32,
    pub values: Float4,
}

impl View for SlotShaderParam {
    type V = ParamV;

    open spec fn view(&self) -> ParamV {
        ParamV { name: self.name@, loc: self.loc, values: self.values }
    }
}

/// Model of `VSlot`. The `slot` field of the executable type is not
/// part of the model: a freshly decoded vslot never carries one, and
/// the contracts state that absence directly.
#[verifier::ext_equal]
pub ghost struct VSlotV {
    pub next: Option<int>,
    pub index: int,
    pub changed: i32,
    pub params: Seq<ParamV>,
    pub linked: bool,
    pub scale: u32,
    pub rotation: i32,
    pub offset: (i32, i32),
    pub scroll: (u32, u32),
    pub layer: i32,
    pub alpha_front: u32,
    pub alpha_back: u32,
    pub color_scale: (u32, u32, u32),
    pub glow_color: (u32, u32, u32),
}

impl View for VSlot {
    type V = VSlotV;

    open spec fn view(&self) -> VSlotV {
        VSlotV {
            next: match self.next {
                Some(i) => Some(i as int),
                None => None,
            },
            index: self.index as int,
            changed: self.changed,
            params: self.params@.map_values(|p: SlotShaderParam| p@),
            linked: self.linked,
            scale: self.scale,
            rotation: self.rotation,
            offset: (self.offset.x, self.offset.y),
            scroll: (self.scroll.x, self.scroll.y),
            layer: self.layer,
            alpha_front: self.alpha_front,
            alpha_back: self.alpha_back,
            color_scale: (self.color_scale.x, self.color_scale.y, self.color_scale.z),
            glow_color: (self.glow_color.x, self.glow_color.y, self.glow_color.z),
        }
    }
}

/// The vslot every delta starts from: scale 1.0, no rotation, no
/// offset or scroll, layer 0, alpha 0.5 front / 0.0 back, and white
/// colour and glow scales.
pub open spec fn default_vslot_v(index: int) -> VSlotV {
    VSlotV {
        next: None,
        index,
        changed: 0,
        params: Seq::empty(),
        linked: false,
        scale: F32_ONE_BITS,
        rotation: 0,
        offset: (0, 0),
        scroll: (F32_ZERO_BITS, F32_ZERO_BITS),
        layer: 0,
        alpha_front: F32_HALF_BITS,
        alpha_back: F32_ZERO_BITS,
        color_scale: (F32_ONE_BITS, F32_ONE_BITS, F32_ONE_BITS),
        glow_color: (F32_ONE_BITS, F32_ONE_BITS, F32_ONE_BITS),
    }
}

/// Model of `EdgeFace`.
#[verifier::ext_equal]
pub ghost enum EdgeFaceV {
    Edge(Seq<u8>),
    Face(Seq<u32>),
}

/// Model of `Cube`.
#[verifier::ext_equal]
pub ghost struct CubeV {
    pub children: Seq<Option<CubeV>>,
    pub edge_face: EdgeFaceV,
    pub textures: Seq<u16>,
    pub material: u16,
    pub merged: u8,
    pub escaped_visible: EscapedVisible,
    pub cube_ext: Option<CubeExtInfo>,
}

pub open spec fn opt_cube_view(oc: Option<Box<Cube>>) -> Option<CubeV>
    decreases oc,
{
    match oc {
        Some(bc) => Some(cube_view(*bc)),
        None => None,
    }
}

pub open spec fn children_view(s: Seq<Option<Box<Cube>>>) -> Seq<Option<CubeV>>
    decreases s,
{
    if s.len() == 0 {
        Seq::empty()
    } else {
        children_view(s.drop_last()).push(opt_cube_view(s.last()))
    }
}

pub open spec fn cube_view(c: Cube) -> CubeV
    decreases c,
{
    CubeV {
        children: children_view(c.children@),
        edge_face: match c.edge_face {
            EdgeFace::Edge(ref e) => EdgeFaceV::Edge(e@),
            EdgeFace::Face(ref f) => EdgeFaceV::Face(f@),
        },
        textures: c.textures@,
        material: c.material,
        merged: c.merged,
        escaped_visible: c.escaped_visible,
        cube_ext: c.cube_ext,
    }
}

impl View for Cube {
    type V = CubeV;

    open spec fn view(&self) -> CubeV {
        cube_view(*self)
    }
}

/// `children_view` is the pointwise view of its argument.
pub proof fn lemma_children_view(s: Seq<Option<Box<Cube>>>)
    ensures
        children_view(s).len() == s.len(),
        forall|i: int| 0 <= i < s.len() ==> children_view(s)[i] == opt_cube_view(s[i]),
    decreases s.len(),
{
    if s.len() > 0 {
        lemma_children_view(s.drop_last());
    }
}

/// The cube a fresh child slot starts from before its bytes are read:
/// all faces packed from `face`, texture 1 on each of the six faces,
/// and no children.
pub open spec fn base_cube_v(face: u32, material: u16) -> CubeV {
    CubeV {
        children: Seq::new(8, |i: int| None),
        edge_face: EdgeFaceV::Face(seq![face, face, face]),
        textures: seq![1u16, 1u16, 1u16, 1u16, 1u16, 1u16],
        material,
        merged: 0,
        escaped_visible: EscapedVisible::Visible(0),
        cube_ext: None,
    }
}

/// Model of `LightMap`.
#[verifier::ext_equal]
pub ghost struct LightMapV {
    pub map_type: i32,
    pub bpp: i32,
    pub tex: i32,
    pub offset_x: i32,
    pub offset_y: i32,
    pub lightmaps: u8,
    pub lumels: u8,
    pub unlit_x: i32,
    pub unlit_y: i32,
    pub data: Seq<u8>,
}

impl View for crate::types::LightMap {
    type V = LightMapV;

    open spec fn view(&self) -> LightMapV {
        LightMapV {
            map_type: self.map_type,
            bpp: self.bpp,
            tex: self.tex,
            offset_x: self.offset_x,
            offset_y: self.offset_y,
            lightmaps: self.lightmaps,
            lumels: self.lumels,
            unlit_x: self.unlit_x,
            unlit_y: self.unlit_y,
            data: self.data@,
        }
    }
}

/// Model of `GameMap`.
#[verifier::ext_equal]
pub ghost struct GameMapV {
    pub header: HeaderV,
    pub vars: Seq<VariableV>,
    pub game_ident: Seq<u8>,
    pub texture_mru: Seq<u16>,
    pub entities: Seq<Entity>,
    pub vslots: Seq<VSlotV>,
    pub map: Seq<Option<CubeV>>,
}

impl View for GameMap {
    type V = GameMapV;

    open spec fn view(&self) -> GameMapV {
        GameMapV {
            header: self.header@,
            vars: self.vars@.map_values(|v: Variable| v@),
            game_ident: self.game_ident@,
            texture_mru: self.texture_mru@,
            entities: self.entities@,
            vslots: self.vslots@.map_values(|v: VSlot| v@),
            map: children_view(self.map@),
        }
    }
}

/// Shape discipline of a decoded octree node: always 8 child slots,
/// either all absent (a leaf) or all present (an interior or LOD
/// node), edge data 12 bytes or face data 3 words, six face textures,
/// and the same recursively below.
pub open spec fn cube_wf(c: CubeV) -> bool
    decreases c,
{
    &&& c.children.len() == 8
    &&& {
        (forall|i: int| 0 <= i < 8 ==> c.children[i] is Some) || (forall|i: int|
            0 <= i < 8 ==> c.children[i] is None)
    }
    &&& forall|i: int| 0 <= i < 8 ==> match #[trigger] c.children[i] {
            Some(ch) => cube_wf(ch),
            None => true,
        }
    &&& edge_face_wf(c.edge_face)
    &&& c.textures.len() == 6
}

/// Edge data is 12 bytes; face data is 3 packed words.
pub open spec fn edge_face_wf(ef: EdgeFaceV) -> bool {
    match ef {
        EdgeFaceV::Edge(e) => e.len() == 12,
        EdgeFaceV::Face(f) => f.len() == 3,
    }
}

/// Nesting depth of a decoded octree node: 1 for a leaf, one more for
/// each level of children below.
pub open spec fn cube_depth(c: CubeV) -> nat
    decreases c,
{
    1 + children_depth(c.children)
}

pub open spec fn children_depth(s: Seq<Option<CubeV>>) -> nat
    decreases s,
{
    if s.len() == 0 {
        0
    } else {
        let rest = children_depth(s.drop_last());
        let last = match s.last() {
            Some(ch) => cube_depth(ch),
            None => 0,
        };
        if rest >= last {
            rest
        } else {
            last
        }
    }
}

} // verus!
