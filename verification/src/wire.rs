use vstd::prelude::*;

use crate::bytes::{i32_at, le32_signed_at, octa_magic, u16_at, u32_at, SUPPORTED_VERSION};
use crate::error::DecodeError;
use crate::model::{
    base_cube_v, default_vslot_v, CubeV, EdgeFaceV, GameMapV, HeaderV, LightMapV, ParamV,
    VarBodyV, VariableV, VSlotV,
};
use crate::types::{Entity, EntityType, Float4, Position, F32_HALF_BITS, F32_ONE_BITS, F32_ZERO_BITS};

verus! {

// The wire format, written down as one specification-level parser.
// Each `spec_*` function takes the byte stream and a start offset and
// yields the decoded model together with the number of bytes the
// section occupies, or the error the section raises. The executable
// decoder's contracts all say "the result and the new cursor position
// are exactly what these functions give".

/// `p` advanced by `used` bytes, clamped to the end of the stream.
/// Every section that reports success stays within the stream, so the
/// clamp never actually cuts anything; it keeps the recursion measures
/// of the octree functions visibly well-founded.
pub open spec fn adv(b: Seq<u8>, p: int, used: nat) -> int {
    if p + used <= b.len() {
        p + used
    } else {
        b.len() as int
    }
}

/// `a + n`, saturating at the top of `u64`.
pub open spec fn sat_add64(a: u64, n: nat) -> u64 {
    if a + n <= u64::MAX {
        (a + n) as u64
    } else {
        u64::MAX
    }
}

/// Saturating additions compose.
pub proof fn lemma_sat_add64_assoc(a: u64, m: nat, n: nat)
    ensures
        sat_add64(sat_add64(a, m), n) == sat_add64(a, (m + n) as nat),
{
}

/// The ten-field header: four magic bytes, then nine 32-bit counters.
/// The magic is checked as soon as it is read, the version right after
/// it; only a stream that passes both has the remaining eight fields
/// read.
pub open spec fn spec_header(b: Seq<u8>, p: int) -> Result<(HeaderV, nat), DecodeError> {
    if p + 4 > b.len() {
        Err(DecodeError::EndOfInput)
    } else if b.subrange(p, p + 4) != octa_magic() {
        Err(DecodeError::BadMagic)
    } else if p + 8 > b.len() {
        Err(DecodeError::EndOfInput)
    } else if u32_at(b, p + 4) != SUPPORTED_VERSION {
        Err(DecodeError::UnsupportedVersion)
    } else if p + 40 > b.len() {
        Err(DecodeError::EndOfInput)
    } else {
        Ok(
            (
                HeaderV {
                    magic: b.subrange(p, p + 4),
                    version: u32_at(b, p + 4),
                    header_size: u32_at(b, p + 8),
                    world_size: u32_at(b, p + 12),
                    number_ents: u32_at(b, p + 16),
                    number_pvs: u32_at(b, p + 20),
                    number_lightmaps: u32_at(b, p + 24),
                    blend_map: u32_at(b, p + 28),
                    number_vars: u32_at(b, p + 32),
                    number_vslots: u32_at(b, p + 36),
                },
                40nat,
            ),
        )
    }
}

/// One game-variable record: a type byte, a length-prefixed name, and
/// a body selected by the type byte (0 int, 1 float, 2 string).
pub open spec fn spec_variable(b: Seq<u8>, p: int) -> Result<(VariableV, nat), DecodeError> {
    if p + 3 > b.len() {
        Err(DecodeError::EndOfInput)
    } else {
        let t = b[p];
        let name_len = u16_at(b, p + 1);
        if p + 3 + name_len > b.len() {
            Err(DecodeError::EndOfInput)
        } else {
            let name = b.subrange(p + 3, p + 3 + name_len);
            let q = p + 3 + name_len;
            if t == 0 {
                if q + 4 > b.len() {
                    Err(DecodeError::EndOfInput)
                } else {
                    Ok(
                        (
                            VariableV { name, name_len, body: VarBodyV::Int(u32_at(b, q)) },
                            (3 + name_len + 4) as nat,
                        ),
                    )
                }
            } else if t == 1 {
                if q + 4 > b.len() {
                    Err(DecodeError::EndOfInput)
                } else {
                    Ok(
                        (
                            VariableV { name, name_len, body: VarBodyV::Float(u32_at(b, q)) },
                            (3 + name_len + 4) as nat,
                        ),
                    )
                }
            } else if t == 2 {
                if q + 2 > b.len() {
                    Err(DecodeError::EndOfInput)
                } else {
                    let str_len = u16_at(b, q);
                    if q + 2 + str_len > b.len() {
                        Err(DecodeError::EndOfInput)
                    } else {
                        Ok(
                            (
                                VariableV {
                                    name,
                                    name_len,
                                    body: VarBodyV::Str(
                                        str_len,
                                        b.subrange(q + 2, q + 2 + str_len),
                                    ),
                                },
                                (3 + name_len + 2 + str_len) as nat,
                            ),
                        )
                    }
                }
            } else {
                Err(DecodeError::UnknownVariableType(t))
            }
        }
    }
}

/// `n` consecutive game-variable records.
pub open spec fn spec_variables(b: Seq<u8>, p: int, n: nat) -> Result<
    (Seq<VariableV>, nat),
    DecodeError,
>
    decreases n,
{
    if n == 0 {
        Ok((Seq::empty(), 0nat))
    } else {
        match spec_variable(b, p) {
            Err(e) => Err(e),
            Ok((v, u)) => match spec_variables(b, adv(b, p, u), (n - 1) as nat) {
                Err(e) => Err(e),
                Ok((rest, ru)) => Ok((seq![v] + rest, u + ru)),
            },
        }
    }
}

/// The game identifier: a length byte, that many bytes of text, and a
/// trailing byte that is consumed and discarded.
pub open spec fn spec_game_ident(b: Seq<u8>, p: int) -> Result<(Seq<u8>, nat), DecodeError> {
    if p + 1 > b.len() {
        Err(DecodeError::EndOfInput)
    } else {
        let n = b[p];
        if p + 2 + n > b.len() {
            Err(DecodeError::EndOfInput)
        } else {
            Ok((b.subrange(p + 1, p + 1 + n), (2 + n) as nat))
        }
    }
}

/// The texture most-recently-used list: a 16-bit count, then that many
/// 16-bit texture slot indices.
pub open spec fn spec_texture_mru(b: Seq<u8>, p: int) -> Result<(Seq<u16>, nat), DecodeError> {
    if p + 2 > b.len() {
        Err(DecodeError::EndOfInput)
    } else {
        let n = u16_at(b, p);
        if p + 2 + 2 * n > b.len() {
            Err(DecodeError::EndOfInput)
        } else {
            Ok((Seq::new(n as nat, |i: int| u16_at(b, p + 2 + 2 * i)), (2 + 2 * n) as nat))
        }
    }
}

/// The entity kind encoded by a wire byte below 32.
pub open spec fn ent_type_of(k: u8) -> EntityType {
    if k == 0 {
        EntityType::Empty
    } else if k == 1 {
        EntityType::Light
    } else if k == 2 {
        EntityType::MapModel
    } else if k == 3 {
        EntityType::PlayerStart
    } else if k == 4 {
        EntityType::EnvMap
    } else if k == 5 {
        EntityType::Particles
    } else if k == 6 {
        EntityType::Sound
    } else if k == 7 {
        EntityType::Spotlight
    } else if k == 8 {
        EntityType::IHealth
    } else if k == 9 {
        EntityType::IAmmo
    } else if k == 10 {
        EntityType::RaceStart
    } else if k == 11 {
        EntityType::RaceFinish
    } else if k == 12 {
        EntityType::RaceCheckpoint
    } else if k == 13 {
        EntityType::PH4
    } else if k == 14 {
        EntityType::PH5
    } else if k == 15 {
        EntityType::PH6
    } else if k == 16 {
        EntityType::PH7
    } else if k == 17 {
        EntityType::PH8
    } else if k == 18 {
        EntityType::PH9
    } else if k == 19 {
        EntityType::Teleport
    } else if k == 20 {
        EntityType::TeleDest
    } else if k == 21 {
        EntityType::PH10
    } else if k == 22 {
        EntityType::PH11
    } else if k == 23 {
        EntityType::JumpPad
    } else if k == 24 {
        EntityType::Base
    } else if k == 25 {
        EntityType::PH12
    } else if k == 26 {
        EntityType::PH13
    } else if k == 27 {
        EntityType::PH14
    } else if k == 28 {
        EntityType::PH15
    } else if k == 29 {
        EntityType::PH16
    } else if k == 30 {
        EntityType::Flag
    } else {
        EntityType::MaxEntTypes
    }
}

/// One fixed-size entity record: three float positions, five 16-bit
/// attributes, a kind byte that must be below 32, and one reserved
/// byte that is consumed and discarded.
pub open spec fn spec_entity(b: Seq<u8>, p: int) -> Result<(Entity, nat), DecodeError> {
    if p + 23 > b.len() {
        Err(DecodeError::EndOfInput)
    } else if b[p + 22] >= 32 {
        Err(DecodeError::UnknownEntityKind(b[p + 22]))
    } else if p + 24 > b.len() {
        Err(DecodeError::EndOfInput)
    } else {
        Ok(
            (
                Entity {
                    position: Position {
                        x: u32_at(b, p),
                        y: u32_at(b, p + 4),
                        z: u32_at(b, p + 8),
                    },
                    attr1: u16_at(b, p + 12),
                    attr2: u16_at(b, p + 14),
                    attr3: u16_at(b, p + 16),
                    attr4: u16_at(b, p + 18),
                    attr5: u16_at(b, p + 20),
                    ent_type: ent_type_of(b[p + 22]),
                },
                24nat,
            ),
        )
    }
}

/// `n` consecutive entity records.
pub open spec fn spec_entities(b: Seq<u8>, p: int, n: nat) -> Result<
    (Seq<Entity>, nat),
    DecodeError,
>
    decreases n,
{
    if n == 0 {
        Ok((Seq::empty(), 0nat))
    } else {
        match spec_entity(b, p) {
            Err(e) => Err(e),
            Ok((v, u)) => match spec_entities(b, adv(b, p, u), (n - 1) as nat) {
                Err(e) => Err(e),
                Ok((rest, ru)) => Ok((seq![v] + rest, u + ru)),
            },
        }
    }
}

/// One shader-parameter record of a vslot's SHPARAM section: a
/// length-prefixed name and four float values. `loc` is always -1 at
/// parse time.
pub open spec fn spec_params(b: Seq<u8>, p: int, n: nat) -> Result<(Seq<ParamV>, nat), DecodeError>
    decreases n,
{
    if n == 0 {
        Ok((Seq::empty(), 0nat))
    } else if p + 2 > b.len() {
        Err(DecodeError::EndOfInput)
    } else {
        let name_len = u16_at(b, p);
        if p + 2 + name_len + 16 > b.len() {
            Err(DecodeError::EndOfInput)
        } else {
            let q = p + 2 + name_len;
            let param = ParamV {
                name: b.subrange(p + 2, p + 2 + name_len),
                loc: -1i32,
                values: Float4 {
                    x: u32_at(b, q),
                    y: u32_at(b, q + 4),
                    z: u32_at(b, q + 8),
                    w: u32_at(b, q + 12),
                },
            };
            match spec_params(b, q + 16, (n - 1) as nat) {
                Err(e) => Err(e),
                Ok((rest, ru)) => Ok((seq![param] + rest, (2 + name_len + 16 + ru) as nat)),
            }
        }
    }
}

/// The SHPARAM section of a vslot body: present when bit 0 of
/// `changed` is set, a 16-bit parameter count followed by that many
/// parameter records.
pub open spec fn sec_shparams(b: Seq<u8>, p: int, changed: i32) -> Result<
    (Seq<ParamV>, nat),
    DecodeError,
> {
    if changed & 1 != 0 {
        if p + 2 > b.len() {
            Err(DecodeError::EndOfInput)
        } else {
            match spec_params(b, p + 2, u16_at(b, p) as nat) {
                Err(e) => Err(e),
                Ok((ps, u)) => Ok((ps, (2 + u) as nat)),
            }
        }
    } else {
        Ok((Seq::empty(), 0nat))
    }
}

/// A one-word vslot section holding a float bit pattern, or its
/// default when `bit` of `changed` is clear.
pub open spec fn sec_word(b: Seq<u8>, p: int, changed: i32, bit: i32, dflt: u32) -> Result<
    (u32, nat),
    DecodeError,
> {
    if changed & bit != 0 {
        if p + 4 > b.len() {
            Err(DecodeError::EndOfInput)
        } else {
            Ok((u32_at(b, p), 4nat))
        }
    } else {
        Ok((dflt, 0nat))
    }
}

/// The ROTATION section: a signed word clamped into 0..=7, or 0 when
/// bit 2 of `changed` is clear.
pub open spec fn sec_rotation(b: Seq<u8>, p: int, changed: i32) -> Result<
    (i32, nat),
    DecodeError,
> {
    if changed & 4 != 0 {
        if p + 4 > b.len() {
            Err(DecodeError::EndOfInput)
        } else if le32_signed_at(b, p) < 0 {
            Ok((0i32, 4nat))
        } else if le32_signed_at(b, p) > 7 {
            Ok((7i32, 4nat))
        } else {
            Ok((i32_at(b, p), 4nat))
        }
    } else {
        Ok((0i32, 0nat))
    }
}

/// A two-word vslot section (an integer or float pair), or its
/// defaults when `bit` of `changed` is clear.
pub open spec fn sec_pair(
    b: Seq<u8>,
    p: int,
    changed: i32,
    bit: i32,
    d0: u32,
    d1: u32,
) -> Result<((u32, u32), nat), DecodeError> {
    if changed & bit != 0 {
        if p + 8 > b.len() {
            Err(DecodeError::EndOfInput)
        } else {
            Ok(((u32_at(b, p), u32_at(b, p + 4)), 8nat))
        }
    } else {
        Ok(((d0, d1), 0nat))
    }
}

/// The OFFSET section: two signed words, or zeroes when bit 3 of
/// `changed` is clear.
pub open spec fn sec_offset(b: Seq<u8>, p: int, changed: i32) -> Result<
    ((i32, i32), nat),
    DecodeError,
> {
    if changed & 8 != 0 {
        if p + 8 > b.len() {
            Err(DecodeError::EndOfInput)
        } else {
            Ok(((i32_at(b, p), i32_at(b, p + 4)), 8nat))
        }
    } else {
        Ok(((0i32, 0i32), 0nat))
    }
}

/// The LAYER section: one signed word, or 0 when bit 5 of `changed`
/// is clear.
pub open spec fn sec_layer(b: Seq<u8>, p: int, changed: i32) -> Result<(i32, nat), DecodeError> {
    if changed & 32 != 0 {
        if p + 4 > b.len() {
            Err(DecodeError::EndOfInput)
        } else {
            Ok((i32_at(b, p), 4nat))
        }
    } else {
        Ok((0i32, 0nat))
    }
}

/// The COLOR section: three float words, or white when bit 7 of
/// `changed` is clear.
pub open spec fn sec_color(b: Seq<u8>, p: int, changed: i32) -> Result<
    ((u32, u32, u32), nat),
    DecodeError,
> {
    if changed & 128 != 0 {
        if p + 12 > b.len() {
            Err(DecodeError::EndOfInput)
        } else {
            Ok(((u32_at(b, p), u32_at(b, p + 4), u32_at(b, p + 8)), 12nat))
        }
    } else {
        Ok(((F32_ONE_BITS, F32_ONE_BITS, F32_ONE_BITS), 0nat))
    }
}

/// The fixed-size sections of a vslot body that follow the parameter
/// list: scale, rotation, offset, scroll, layer, alpha and colour, in
/// bit order.
#[verifier::ext_equal]
pub ghost struct VSlotTailV {
    pub scale: u32,
    pub rotation: i32,
    pub offset: (i32, i32),
    pub scroll: (u32, u32),
    pub layer: i32,
    pub alpha: (u32, u32),
    pub color: (u32, u32, u32),
}

/// The seven fixed-size sections of a vslot body, each present only
/// when its bit of `changed` is set and defaulted otherwise.
pub open spec fn sec_tail(b: Seq<u8>, p: int, changed: i32) -> Result<
    (VSlotTailV, nat),
    DecodeError,
> {
    match sec_word(b, p, changed, 2, F32_ONE_BITS) {
        Err(e) => Err(e),
        Ok((scale, u1)) => match sec_rotation(b, p + u1, changed) {
            Err(e) => Err(e),
            Ok((rotation, u2)) => match sec_offset(b, p + u1 + u2, changed) {
                Err(e) => Err(e),
                Ok((offset, u3)) => match sec_pair(
                    b,
                    p + u1 + u2 + u3,
                    changed,
                    16,
                    F32_ZERO_BITS,
                    F32_ZERO_BITS,
                ) {
                    Err(e) => Err(e),
                    Ok((scroll, u4)) => match sec_layer(b, p + u1 + u2 + u3 + u4, changed) {
                        Err(e) => Err(e),
                        Ok((layer, u5)) => match sec_pair(
                            b,
                            p + u1 + u2 + u3 + u4 + u5,
                            changed,
                            64,
                            F32_HALF_BITS,
                            F32_ZERO_BITS,
                        ) {
                            Err(e) => Err(e),
                            Ok((alpha, u6)) => match sec_color(
                                b,
                                p + u1 + u2 + u3 + u4 + u5 + u6,
                                changed,
                            ) {
                                Err(e) => Err(e),
                                Ok((color, u7)) => Ok(
                                    (
                                        VSlotTailV {
                                            scale,
                                            rotation,
                                            offset,
                                            scroll,
                                            layer,
                                            alpha,
                                            color,
                                        },
                                        (u1 + u2 + u3 + u4 + u5 + u6 + u7) as nat,
                                    ),
                                ),
                            },
                        },
                    },
                },
            },
        },
    }
}

/// One non-default vslot body: the parameter list, then the seven
/// fixed-size sections, each selected by its bit of `changed` and
/// defaulted otherwise.
pub open spec fn spec_vslot(b: Seq<u8>, p: int, index: int, changed: i32) -> Result<
    (VSlotV, nat),
    DecodeError,
> {
    match sec_shparams(b, p, changed) {
        Err(e) => Err(e),
        Ok((params, u0)) => match sec_tail(b, p + u0, changed) {
            Err(e) => Err(e),
            Ok((t, ut)) => Ok(
                (
                    VSlotV {
                        next: None,
                        index,
                        changed,
                        params,
                        linked: false,
                        scale: t.scale,
                        rotation: t.rotation,
                        offset: t.offset,
                        scroll: t.scroll,
                        layer: t.layer,
                        alpha_front: t.alpha.0,
                        alpha_back: t.alpha.1,
                        color_scale: t.color,
                        glow_color: (F32_ONE_BITS, F32_ONE_BITS, F32_ONE_BITS),
                    },
                    (u0 + ut) as nat,
                ),
            ),
        },
    }
}

/// The delta-encoded vslot list, before the next-link post-pass: a
/// negative `changed` word is a run of that many default vslots, a
/// non-negative one is a previous-slot index followed by one vslot
/// body. Yields the slots, the side table of previous-slot indices
/// (-1 for defaults), and the bytes consumed.
pub open spec fn spec_vslots(b: Seq<u8>, p: int, remaining: nat, base: int) -> Result<
    (Seq<VSlotV>, Seq<int>, nat),
    DecodeError,
>
    decreases remaining,
{
    if remaining == 0 {
        Ok((Seq::empty(), Seq::empty(), 0nat))
    } else if p + 4 > b.len() {
        Err(DecodeError::EndOfInput)
    } else {
        let changed = i32_at(b, p);
        if changed < 0 {
            let k = (-(changed as int)) as nat;
            let next_rem: nat = if remaining + changed >= 0 {
                (remaining + changed) as nat
            } else {
                0nat
            };
            match spec_vslots(b, p + 4, next_rem, base + k) {
                Err(e) => Err(e),
                Ok((rest, rprev, ru)) => Ok(
                    (
                        Seq::new(k, |i: int| default_vslot_v(base + i)) + rest,
                        Seq::new(k, |i: int| -1int) + rprev,
                        4 + ru,
                    ),
                ),
            }
        } else {
            if p + 8 > b.len() {
                Err(DecodeError::EndOfInput)
            } else {
                let prev = le32_signed_at(b, p + 4);
                match spec_vslot(b, p + 8, base, changed) {
                    Err(e) => Err(e),
                    Ok((v, u)) => match spec_vslots(
                        b,
                        adv(b, p + 8, u),
                        (remaining - 1) as nat,
                        base + 1,
                    ) {
                        Err(e) => Err(e),
                        Ok((rest, rprev, ru)) => Ok(
                            (seq![v] + rest, seq![prev] + rprev, 8 + u + ru),
                        ),
                    },
                }
            }
        }
    }
}

/// `v`, with its next-link pointed at slot `n`.
pub open spec fn with_next(v: VSlotV, n: int) -> VSlotV {
    VSlotV {
        next: Some(n),
        index: v.index,
        changed: v.changed,
        params: v.params,
        linked: v.linked,
        scale: v.scale,
        rotation: v.rotation,
        offset: v.offset,
        scroll: v.scroll,
        layer: v.layer,
        alpha_front: v.alpha_front,
        alpha_back: v.alpha_back,
        color_scale: v.color_scale,
        glow_color: v.glow_color,
    }
}

/// The next-link post-pass: each slot whose recorded previous-slot
/// index is in range gets that index as its `next` edge; an index out
/// of range is silently dropped.
pub open spec fn link_next(slots: Seq<VSlotV>, prevs: Seq<int>) -> Seq<VSlotV> {
    Seq::new(
        slots.len(),
        |i: int|
            if 0 <= prevs[i] < slots.len() {
                with_next(slots[i], prevs[i])
            } else {
                slots[i]
            },
    )
}

/// The complete vslot section: the delta list followed by the
/// next-link post-pass.
pub open spec fn spec_vslots_linked(b: Seq<u8>, p: int, remaining: nat) -> Result<
    (Seq<VSlotV>, nat),
    DecodeError,
> {
    match spec_vslots(b, p, remaining, 0) {
        Err(e) => Err(e),
        Ok((slots, prevs, u)) => Ok((link_next(slots, prevs), u)),
    }
}

/// Interning a name into the shader-parameter name table: already
/// present names leave the table unchanged.
pub open spec fn intern1(t: Seq<Seq<u8>>, n: Seq<u8>) -> Seq<Seq<u8>> {
    if t.contains(n) {
        t
    } else {
        t.push(n)
    }
}

/// The table after interning every parameter name of `ps`, in order.
pub open spec fn intern_params(t: Seq<Seq<u8>>, ps: Seq<ParamV>) -> Seq<Seq<u8>>
    decreases ps.len(),
{
    if ps.len() == 0 {
        t
    } else {
        intern_params(intern1(t, ps[0].name), ps.drop_first())
    }
}

/// The table after interning the parameter names of every slot of
/// `vs`, in order.
pub open spec fn intern_vslots(t: Seq<Seq<u8>>, vs: Seq<VSlotV>) -> Seq<Seq<u8>>
    decreases vs.len(),
{
    if vs.len() == 0 {
        t
    } else {
        intern_vslots(intern_params(t, vs[0].params), vs.drop_first())
    }
}

/// A successful parameter list stays within the stream.
pub proof fn lemma_spec_params_bounds(b: Seq<u8>, p: int, n: nat)
    requires
        p <= b.len(),
    ensures
        match spec_params(b, p, n) {
            Ok((_, u)) => p + u <= b.len(),
            Err(_) => true,
        },
    decreases n,
{
    if n > 0 && p + 2 <= b.len() {
        let name_len = u16_at(b, p);
        if p + 2 + name_len + 16 <= b.len() {
            lemma_spec_params_bounds(b, p + 2 + name_len + 16, (n - 1) as nat);
        }
    }
}

/// A successful SHPARAM section stays within the stream.
pub proof fn lemma_sec_shparams_bounds(b: Seq<u8>, p: int, changed: i32)
    requires
        p <= b.len(),
    ensures
        match sec_shparams(b, p, changed) {
            Ok((_, u)) => p + u <= b.len(),
            Err(_) => true,
        },
{
    if changed & 1 != 0 && p + 2 <= b.len() {
        lemma_spec_params_bounds(b, p + 2, u16_at(b, p) as nat);
    }
}

/// A successful run of fixed-size sections stays within the stream.
pub proof fn lemma_sec_tail_bounds(b: Seq<u8>, p: int, changed: i32)
    requires
        p <= b.len(),
    ensures
        match sec_tail(b, p, changed) {
            Ok((_, u)) => p + u <= b.len(),
            Err(_) => true,
        },
{
}

/// A successful vslot body stays within the stream.
pub proof fn lemma_spec_vslot_bounds(b: Seq<u8>, p: int, index: int, changed: i32)
    requires
        p <= b.len(),
    ensures
        match spec_vslot(b, p, index, changed) {
            Ok((_, u)) => p + u <= b.len(),
            Err(_) => true,
        },
{
    lemma_sec_shparams_bounds(b, p, changed);
    match sec_shparams(b, p, changed) {
        Ok((_, u0)) => {
            lemma_sec_tail_bounds(b, p + u0, changed);
        },
        Err(_) => {},
    }
}

/// `intern_params` folds forward: interning one more parameter is one
/// more `intern1` step.
pub proof fn lemma_intern_params_push(t: Seq<Seq<u8>>, ps: Seq<ParamV>, q: ParamV)
    ensures
        intern_params(t, ps.push(q)) == intern1(intern_params(t, ps), q.name),
    decreases ps.len(),
{
    let s = ps.push(q);
    if ps.len() == 0 {
        assert(s[0] == q);
        assert(s.drop_first() =~= Seq::<ParamV>::empty());
        assert(intern_params(t, s) == intern_params(intern1(t, q.name), s.drop_first()));
        assert(intern_params(intern1(t, q.name), s.drop_first()) == intern1(t, q.name));
        assert(intern_params(t, ps) == t);
    } else {
        assert(s[0] == ps[0]);
        assert(s.drop_first() =~= ps.drop_first().push(q));
        lemma_intern_params_push(intern1(t, ps[0].name), ps.drop_first(), q);
        assert(intern_params(t, s) == intern_params(intern1(t, ps[0].name), s.drop_first()));
        assert(intern_params(t, ps) == intern_params(intern1(t, ps[0].name), ps.drop_first()));
    }
}

/// `intern_vslots` folds forward: interning one more slot is one more
/// `intern_params` step.
pub proof fn lemma_intern_vslots_push(t: Seq<Seq<u8>>, vs: Seq<VSlotV>, v: VSlotV)
    ensures
        intern_vslots(t, vs.push(v)) == intern_params(intern_vslots(t, vs), v.params),
    decreases vs.len(),
{
    let s = vs.push(v);
    if vs.len() == 0 {
        assert(s[0] == v);
        assert(s.drop_first() =~= Seq::<VSlotV>::empty());
        assert(intern_vslots(t, s) == intern_vslots(intern_params(t, v.params), s.drop_first()));
        assert(intern_vslots(intern_params(t, v.params), s.drop_first()) == intern_params(
            t,
            v.params,
        ));
        assert(intern_vslots(t, vs) == t);
    } else {
        assert(s[0] == vs[0]);
        assert(s.drop_first() =~= vs.drop_first().push(v));
        lemma_intern_vslots_push(intern_params(t, vs[0].params), vs.drop_first(), v);
        assert(intern_vslots(t, s) == intern_vslots(intern_params(t, vs[0].params), s.drop_first()));
        assert(intern_vslots(t, vs) == intern_vslots(
            intern_params(t, vs[0].params),
            vs.drop_first(),
        ));
    }
}

/// Interning a concatenation of slot runs is interning one run after
/// the other.
pub proof fn lemma_intern_vslots_concat(t: Seq<Seq<u8>>, a: Seq<VSlotV>, c: Seq<VSlotV>)
    ensures
        intern_vslots(t, a + c) == intern_vslots(intern_vslots(t, a), c),
    decreases a.len(),
{
    if a.len() == 0 {
        assert(a + c =~= c);
    } else {
        assert((a + c).drop_first() =~= a.drop_first() + c);
        lemma_intern_vslots_concat(intern_params(t, a[0].params), a.drop_first(), c);
    }
}

/// Interning never touches the parameter names already in the table,
/// so a run of default slots leaves it unchanged.
pub proof fn lemma_intern_vslots_defaults(t: Seq<Seq<u8>>, vs: Seq<VSlotV>)
    requires
        forall|i: int| 0 <= i < vs.len() ==> #[trigger] vs[i].params == Seq::<ParamV>::empty(),
    ensures
        intern_vslots(t, vs) == t,
    decreases vs.len(),
{
    if vs.len() > 0 {
        assert(intern_params(t, vs[0].params) == t);
        lemma_intern_vslots_defaults(t, vs.drop_first());
    }
}

// ---------------------------------------------------------------------
// The octree.

/// Outcome of decoding one cube: the node, the bytes its subtree
/// occupies, whether an unknown cube kind stopped the descent, and how
/// many cube records were attempted below (this cube's own children
/// included, itself not).
#[verifier::ext_equal]
pub ghost struct CubeOut {
    pub cube: CubeV,
    pub used: nat,
    pub failed: bool,
    pub calls: nat,
}

/// Outcome of decoding a run of sibling cubes: the child slots (absent
/// past a soft failure), bytes consumed, the soft-failure flag, and
/// the number of cube records attempted.
#[verifier::ext_equal]
pub ghost struct KidsOut {
    pub kids: Seq<Option<CubeV>>,
    pub used: nat,
    pub failed: bool,
    pub calls: nat,
}

/// Whether face `i` participates in a cube's surface block.
pub open spec fn face_bit(mask: u8, i: u8) -> bool {
    mask & (1u8 << i) != 0
}

/// The bytes one face's surface data occupies after its fixed four
/// header bytes, as a function of those header bytes: the vertex mask
/// and the vertex count byte select which per-face and per-vertex
/// blocks are present.
pub open spec fn face_extra(sv: u8, snv: u8) -> nat {
    if snv & 15 == 0 {
        0nat
    } else {
        let lv = (snv & 15) as int;
        let has_xyz = sv & 0x04 != 0;
        let has_uv = sv & 0x40 != 0;
        let has_norm = sv & 0x80 != 0;
        let quad_xyz: int = if lv == 4 && has_xyz && sv & 0x01 != 0 {
            8
        } else {
            0
        };
        let quad_uv: int = if lv == 4 && has_uv && sv & 0x02 != 0 {
            if snv & 0x80 != 0 {
                16
            } else {
                8
            }
        } else {
            0
        };
        let norm_single: int = if has_norm && sv & 0x08 != 0 {
            2
        } else {
            0
        };
        let xyz_left = has_xyz && !(lv == 4 && sv & 0x01 != 0);
        let uv_left = has_uv && !(lv == 4 && sv & 0x02 != 0);
        let norm_left = has_norm && !(sv & 0x08 != 0);
        let per_vertex: int = (if xyz_left {
            4int
        } else {
            0int
        }) + (if uv_left {
            4int
        } else {
            0int
        }) + (if norm_left {
            2int
        } else {
            0int
        });
        let vertex_block: int = if xyz_left || uv_left || norm_left {
            lv * per_vertex
        } else {
            0
        };
        let blend: int = if snv & 0x80 != 0 {
            2 * lv
        } else {
            0
        };
        (quad_xyz + quad_uv + norm_single + vertex_block + blend) as nat
    }
}

/// The surface blocks of the faces `i..6` that are selected by `mask`:
/// four header bytes each, then `face_extra` more. A read past the end
/// of the stream here is a `TruncatedSurface` error.
pub open spec fn spec_faces(b: Seq<u8>, p: int, mask: u8, i: u8) -> Result<nat, DecodeError>
    decreases 6 - i,
{
    if i >= 6 {
        Ok(0nat)
    } else if !face_bit(mask, i) {
        spec_faces(b, p, mask, (i + 1) as u8)
    } else if p + 4 > b.len() {
        Err(DecodeError::TruncatedSurface)
    } else {
        let extra = face_extra(b[p + 2], b[p + 3]);
        if p + 4 + extra > b.len() {
            Err(DecodeError::TruncatedSurface)
        } else {
            match spec_faces(b, p + 4 + extra, mask, (i + 1) as u8) {
                Err(e) => Err(e),
                Ok(rest) => Ok((4 + extra + rest) as nat),
            }
        }
    }
}

/// A cube's whole surface/vertex block: a face mask byte, a total
/// vertex count byte, then the selected faces' data. Only the byte
/// count matters; the contents are not stored.
pub open spec fn spec_surface(b: Seq<u8>, p: int) -> Result<nat, DecodeError> {
    if p + 2 > b.len() {
        Err(DecodeError::TruncatedSurface)
    } else {
        match spec_faces(b, p + 2, b[p], 0) {
            Err(e) => Err(e),
            Ok(fu) => Ok((2 + fu) as nat),
        }
    }
}

/// One cube record starting from the partially initialised cube
/// `base`: a save byte whose low three bits pick the geometry (0
/// children, 1 empty, 2 solid, 3 edges, 4 a leaf that also recurses),
/// then the leaf sections selected by the save byte's high bits. A low
/// value above 4 is a soft failure: the base cube is returned as it
/// stands and the `failed` flag stops the enclosing descent.
pub open spec fn spec_cube(b: Seq<u8>, p: int, base: CubeV) -> Result<CubeOut, DecodeError>
    decreases b.len() - p, 0int, 0int,
{
    if p < 0 || p + 1 > b.len() {
        Err(DecodeError::EndOfInput)
    } else {
        let sav = b[p];
        let k = sav & 7;
        if k == 0 {
            match spec_children(b, p + 1, 0) {
                Err(e) => Err(e),
                Ok(ch) => Ok(
                    CubeOut {
                        cube: CubeV {
                            children: ch.kids,
                            edge_face: base.edge_face,
                            textures: base.textures,
                            material: base.material,
                            merged: base.merged,
                            escaped_visible: base.escaped_visible,
                            cube_ext: base.cube_ext,
                        },
                        used: 1 + ch.used,
                        failed: ch.failed,
                        calls: ch.calls,
                    },
                ),
            }
        } else if k > 4 {
            Ok(CubeOut { cube: base, used: 1nat, failed: true, calls: 0nat })
        } else {
            let edge_used: nat = if k == 3 {
                12nat
            } else {
                0nat
            };
            if p + 1 + edge_used > b.len() {
                Err(DecodeError::EndOfInput)
            } else {
                let edge_face = if k == 1 {
                    EdgeFaceV::Face(seq![0u32, 0u32, 0u32])
                } else if k == 2 {
                    EdgeFaceV::Face(seq![0x8080_8080u32, 0x8080_8080u32, 0x8080_8080u32])
                } else if k == 3 {
                    EdgeFaceV::Edge(b.subrange(p + 1, p + 13))
                } else {
                    base.edge_face
                };
                let q1 = p + 1 + edge_used;
                if q1 + 12 > b.len() {
                    Err(DecodeError::EndOfInput)
                } else {
                    let textures = Seq::new(6, |i: int| u16_at(b, q1 + 2 * i));
                    let q2 = q1 + 12;
                    let mat_used: nat = if sav & 0x40 != 0 {
                        2nat
                    } else {
                        0nat
                    };
                    if q2 + mat_used > b.len() {
                        Err(DecodeError::EndOfInput)
                    } else {
                        let material = if sav & 0x40 != 0 {
                            u16_at(b, q2)
                        } else {
                            base.material
                        };
                        let q3 = q2 + mat_used;
                        let mrg_used: nat = if sav & 0x80 != 0 {
                            1nat
                        } else {
                            0nat
                        };
                        if q3 + mrg_used > b.len() {
                            Err(DecodeError::EndOfInput)
                        } else {
                            let merged = if sav & 0x80 != 0 {
                                b[q3]
                            } else {
                                base.merged
                            };
                            let q4 = q3 + mrg_used;
                            let surf: Result<nat, DecodeError> = if sav & 0x20 != 0 {
                                spec_surface(b, q4)
                            } else {
                                Ok(0nat)
                            };
                            match surf {
                                Err(e) => Err(e),
                                Ok(su) => {
                                    let q5 = adv(b, q4, su);
                                    if k == 4 {
                                        match spec_children(b, q5, 0) {
                                            Err(e) => Err(e),
                                            Ok(ch) => Ok(
                                                CubeOut {
                                                    cube: CubeV {
                                                        children: ch.kids,
                                                        edge_face,
                                                        textures,
                                                        material,
                                                        merged,
                                                        escaped_visible: base.escaped_visible,
                                                        cube_ext: base.cube_ext,
                                                    },
                                                    used: ((q5 - p) as nat) + ch.used,
                                                    failed: ch.failed,
                                                    calls: ch.calls,
                                                },
                                            ),
                                        }
                                    } else {
                                        Ok(
                                            CubeOut {
                                                cube: CubeV {
                                                    children: Seq::new(8, |i: int| None),
                                                    edge_face,
                                                    textures,
                                                    material,
                                                    merged,
                                                    escaped_visible: base.escaped_visible,
                                                    cube_ext: base.cube_ext,
                                                },
                                                used: (q5 - p) as nat,
                                                failed: false,
                                                calls: 0nat,
                                            },
                                        )
                                    }
                                },
                            }
                        }
                    }
                }
            }
        }
    }
}

/// The sibling cubes `i..8` of one children block, each decoded from
/// the default base cube. A soft failure keeps the failing cube and
/// leaves its remaining siblings absent.
pub open spec fn spec_children(b: Seq<u8>, p: int, i: int) -> Result<KidsOut, DecodeError>
    decreases b.len() - p, 1int, 8 - i,
{
    if p < 0 || p > b.len() {
        Err(DecodeError::EndOfInput)
    } else if i >= 8 {
        Ok(KidsOut { kids: Seq::empty(), used: 0nat, failed: false, calls: 0nat })
    } else {
        match spec_cube(b, p, base_cube_v(0, 0)) {
            Err(e) => Err(e),
            Ok(co) => {
                if co.failed {
                    Ok(
                        KidsOut {
                            kids: seq![Some(co.cube)] + Seq::new((7 - i) as nat, |j: int| None),
                            used: co.used,
                            failed: true,
                            calls: 1 + co.calls,
                        },
                    )
                } else {
                    match spec_children(b, adv(b, p, co.used), i + 1) {
                        Err(e) => Err(e),
                        Ok(rest) => Ok(
                            KidsOut {
                                kids: seq![Some(co.cube)] + rest.kids,
                                used: co.used + rest.used,
                                failed: rest.failed,
                                calls: 1 + co.calls + rest.calls,
                            },
                        ),
                    }
                }
            },
        }
    }
}

/// Every successful cube decode consumes at least its save byte and
/// stays within the stream.
pub proof fn lemma_spec_cube_bounds(b: Seq<u8>, p: int, base: CubeV)
    ensures
        match spec_cube(b, p, base) {
            Ok(out) => 0 <= p && 1 <= out.used && p + out.used <= b.len(),
            Err(_) => true,
        },
    decreases b.len() - p, 0int, 0int,
{
    if 0 <= p && p + 1 <= b.len() {
        let sav = b[p];
        let k = sav & 7;
        if k == 0 {
            lemma_spec_children_bounds(b, p + 1, 0);
        } else if k > 4 {
        } else {
            let edge_used: nat = if k == 3 {
                12nat
            } else {
                0nat
            };
            if p + 1 + edge_used <= b.len() {
                let q1 = p + 1 + edge_used;
                if q1 + 12 <= b.len() {
                    let q2 = q1 + 12;
                    let mat_used: nat = if sav & 0x40 != 0 {
                        2nat
                    } else {
                        0nat
                    };
                    if q2 + mat_used <= b.len() {
                        let q3 = q2 + mat_used;
                        let mrg_used: nat = if sav & 0x80 != 0 {
                            1nat
                        } else {
                            0nat
                        };
                        if q3 + mrg_used <= b.len() {
                            let q4 = q3 + mrg_used;
                            let surf: Result<nat, DecodeError> = if sav & 0x20 != 0 {
                                spec_surface(b, q4)
                            } else {
                                Ok(0nat)
                            };
                            match surf {
                                Err(_) => {},
                                Ok(su) => {
                                    if sav & 0x20 != 0 {
                                        lemma_spec_surface_bounds(b, q4);
                                    }
                                    let q5 = adv(b, q4, su);
                                    if k == 4 {
                                        lemma_spec_children_bounds(b, q5, 0);
                                    }
                                },
                            }
                        }
                    }
                }
            }
        }
    }
}

/// A successful surface block stays within the stream.
pub proof fn lemma_spec_surface_bounds(b: Seq<u8>, p: int)
    ensures
        match spec_surface(b, p) {
            Ok(su) => p + su <= b.len(),
            Err(_) => true,
        },
{
    if p + 2 <= b.len() {
        lemma_spec_faces_bounds(b, p + 2, b[p], 0);
    }
}

/// A successful run of face blocks stays within the stream.
pub proof fn lemma_spec_faces_bounds(b: Seq<u8>, p: int, mask: u8, i: u8)
    requires
        p <= b.len(),
    ensures
        match spec_faces(b, p, mask, i) {
            Ok(fu) => p + fu <= b.len(),
            Err(_) => true,
        },
    decreases 6 - i,
{
    if i >= 6 {
    } else if !face_bit(mask, i) {
        lemma_spec_faces_bounds(b, p, mask, (i + 1) as u8);
    } else if p + 4 <= b.len() {
        let extra = face_extra(b[p + 2], b[p + 3]);
        if p + 4 + extra <= b.len() {
            lemma_spec_faces_bounds(b, p + 4 + extra, mask, (i + 1) as u8);
        }
    }
}

/// A successful children block stays within the stream and yields one
/// child slot for each remaining sibling.
pub proof fn lemma_spec_children_bounds(b: Seq<u8>, p: int, i: int)
    requires
        i <= 8,
    ensures
        match spec_children(b, p, i) {
            Ok(out) => 0 <= p && p + out.used <= b.len() && out.kids.len() == 8 - i,
            Err(_) => true,
        },
    decreases b.len() - p, 1int, 8 - i,
{
    if 0 <= p <= b.len() && i < 8 {
        lemma_spec_cube_bounds(b, p, base_cube_v(0, 0));
        match spec_cube(b, p, base_cube_v(0, 0)) {
            Err(_) => {},
            Ok(co) => {
                if !co.failed {
                    lemma_spec_children_bounds(b, adv(b, p, co.used), i + 1);
                }
            },
        }
    }
}

// ---------------------------------------------------------------------
// Lightmaps and PVS data (consumed, not interpreted beyond headers).

/// One lightmap record: a type byte, optional unlit coordinates, and
/// a 512-by-512 pixel block whose depth the type byte selects.
pub open spec fn spec_lightmap(b: Seq<u8>, p: int) -> Result<(LightMapV, nat), DecodeError> {
    if p + 1 > b.len() {
        Err(DecodeError::EndOfInput)
    } else {
        let t = b[p];
        let coord_used: nat = if t & 0x80 != 0 {
            4nat
        } else {
            0nat
        };
        if p + 1 + coord_used > b.len() {
            Err(DecodeError::EndOfInput)
        } else {
            let map_type = (t & 0x7F) as i32;
            let unlit = if t & 0x80 != 0 {
                (u16_at(b, p + 1) as i32, u16_at(b, p + 3) as i32)
            } else {
                (0i32, 0i32)
            };
            let bpp: i32 = if map_type & 16 != 0 && map_type & 15 != 2 {
                4
            } else {
                3
            };
            let q = p + 1 + coord_used;
            let data_len = bpp * 512 * 512;
            if q + data_len > b.len() {
                Err(DecodeError::EndOfInput)
            } else {
                Ok(
                    (
                        LightMapV {
                            map_type,
                            bpp,
                            tex: -1i32,
                            offset_x: -1i32,
                            offset_y: -1i32,
                            lightmaps: 0,
                            lumels: 0,
                            unlit_x: unlit.0,
                            unlit_y: unlit.1,
                            data: b.subrange(q, q + data_len),
                        },
                        (1 + coord_used + data_len) as nat,
                    ),
                )
            }
        }
    }
}

/// `n` consecutive lightmap records.
pub open spec fn spec_lightmaps(b: Seq<u8>, p: int, n: nat) -> Result<
    (Seq<LightMapV>, nat),
    DecodeError,
>
    decreases n,
{
    if n == 0 {
        Ok((Seq::empty(), 0nat))
    } else {
        match spec_lightmap(b, p) {
            Err(e) => Err(e),
            Ok((v, u)) => match spec_lightmaps(b, adv(b, p, u), (n - 1) as nat) {
                Err(e) => Err(e),
                Ok((rest, ru)) => Ok((seq![v] + rest, u + ru)),
            },
        }
    }
}

/// The PVS section: a length word whose top bit announces a water
/// plane table, then one 16-bit length per visibility cluster. Only
/// the byte count is of interest.
pub open spec fn spec_pvs(b: Seq<u8>, p: int, count: nat) -> Result<nat, DecodeError> {
    if p + 4 > b.len() {
        Err(DecodeError::EndOfInput)
    } else {
        let total = u32_at(b, p);
        if total & 0x8000_0000u32 != 0 {
            if p + 8 > b.len() {
                Err(DecodeError::EndOfInput)
            } else {
                let planes = u32_at(b, p + 4);
                if p + 8 + 4 * planes > b.len() {
                    Err(DecodeError::EndOfInput)
                } else {
                    let q = p + 8 + 4 * planes;
                    if q + 2 * count > b.len() {
                        Err(DecodeError::EndOfInput)
                    } else {
                        Ok(((q + 2 * count) - p) as nat)
                    }
                }
            }
        } else {
            if p + 4 + 2 * count > b.len() {
                Err(DecodeError::EndOfInput)
            } else {
                Ok((4 + 2 * count) as nat)
            }
        }
    }
}

// ---------------------------------------------------------------------
// The whole stream.

/// The complete map stream from offset `p`: header, variables, game
/// identifier plus four reserved bytes, texture list, entities,
/// vslots, and the eight root cubes of the octree. Yields the decoded
/// map, the bytes consumed, and the number of cube records the octree
/// section attempts. Lightmaps, PVS data and the blendmap lie beyond
/// the decoded prefix and are left to the dedicated skippers.
pub open spec fn spec_map(b: Seq<u8>, p: int) -> Result<(GameMapV, nat, nat), DecodeError> {
    match spec_header(b, p) {
        Err(e) => Err(e),
        Ok((h, hu)) => {
            let p1 = p + hu;
            match spec_variables(b, p1, h.number_vars as nat) {
                Err(e) => Err(e),
                Ok((vars, vu)) => {
                    let p2 = p1 + vu;
                    match spec_game_ident(b, p2) {
                        Err(e) => Err(e),
                        Ok((ident, iu)) => {
                            let p3 = p2 + iu;
                            if p3 + 4 > b.len() {
                                Err(DecodeError::EndOfInput)
                            } else {
                                let p4 = p3 + 4;
                                match spec_texture_mru(b, p4) {
                                    Err(e) => Err(e),
                                    Ok((mru, mu)) => {
                                        let p5 = p4 + mu;
                                        match spec_entities(b, p5, h.number_ents as nat) {
                                            Err(e) => Err(e),
                                            Ok((ents, eu)) => {
                                                let p6 = p5 + eu;
                                                match spec_vslots_linked(
                                                    b,
                                                    p6,
                                                    h.number_vslots as nat,
                                                ) {
                                                    Err(e) => Err(e),
                                                    Ok((vslots, su)) => {
                                                        let p7 = p6 + su;
                                                        match spec_children(b, p7, 0) {
                                                            Err(e) => Err(e),
                                                            Ok(kids) => Ok(
                                                                (
                                                                    GameMapV {
                                                                        header: h,
                                                                        vars,
                                                                        game_ident: ident,
                                                                        texture_mru: mru,
                                                                        entities: ents,
                                                                        vslots,
                                                                        map: kids.kids,
                                                                    },
                                                                    ((p7 - p) + kids.used) as nat,
                                                                    kids.calls,
                                                                ),
                                                            ),
                                                        }
                                                    },
                                                }
                                            },
                                        }
                                    },
                                }
                            }
                        },
                    }
                },
            }
        },
    }
}

} // verus!
