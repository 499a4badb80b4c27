use vstd::prelude::*;

use crate::cursor::Parser;
use crate::error::DecodeError;
use crate::model::{ParamV, VSlotV};
use crate::types::{Float4, SlotShaderParam, VSlot, F32_HALF_BITS, F32_ONE_BITS, F32_ZERO_BITS};
use crate::wire::{
    intern1, intern_params, intern_vslots, lemma_intern_params_push, lemma_intern_vslots_push,
    lemma_intern_vslots_defaults, lemma_spec_vslot_bounds, link_next, sec_shparams, sec_tail,
    spec_params, spec_vslot, spec_vslots, with_next, VSlotTailV,
};

verus! {

/// Whether two byte strings hold the same bytes.
fn bytes_eq(a: &Vec<u8>, b: &Vec<u8>) -> (r: bool)
    ensures
        r == (a@ == b@),
{
    if a.len() != b.len() {
        proof {
            assert(a@ != b@);
        }
        return false;
    }
    let n = a.len();
    let mut i: usize = 0;
    #[verifier::loop_isolation(false)]
    while i < n
        invariant
            i <= n,
            forall|j: int| 0 <= j < i ==> a@[j] == b@[j],
        decreases n - i,
    {
        if a[i] != b[i] {
            proof {
                assert(a@ != b@);
            }
            return false;
        }
        i = i + 1;
    }
    proof {
        assert(a@ =~= b@);
    }
    true
}

/// A fresh byte string holding the same bytes.
fn clone_bytes(a: &Vec<u8>) -> (r: Vec<u8>)
    ensures
        r@ == a@,
{
    let mut out: Vec<u8> = Vec::new();
    let n = a.len();
    let mut i: usize = 0;
    #[verifier::loop_isolation(false)]
    while i < n
        invariant
            i <= n,
            out@ == a@.subrange(0, i as int),
        decreases n - i,
    {
        out.push(a[i]);
        proof {
            assert(out@ =~= a@.subrange(0, i + 1));
        }
        i = i + 1;
    }
    proof {
        assert(out@ =~= a@);
    }
    out
}

/// The fixed-size sections of a vslot body, gathered before the slot
/// itself is assembled.
struct VSlotTail {
    scale: u32,
    rotation: i32,
    offset_x: i32,
    offset_y: i32,
    scroll_x: u32,
    scroll_y: u32,
    layer: i32,
    alpha_front: u32,
    alpha_back: u32,
    color_r: u32,
    color_g: u32,
    color_b: u32,
}

impl View for VSlotTail {
    type V = VSlotTailV;

    closed spec fn view(&self) -> VSlotTailV {
        VSlotTailV {
            scale: self.scale,
            rotation: self.rotation,
            offset: (self.offset_x, self.offset_y),
            scroll: (self.scroll_x, self.scroll_y),
            layer: self.layer,
            alpha: (self.alpha_front, self.alpha_back),
            color: (self.color_r, self.color_g, self.color_b),
        }
    }
}

/// The running state of the vslot-list loop: the slots and side-table
/// entries decoded so far, composed with whatever the rest of the
/// stream yields, equal the whole section's outcome.
pub open spec fn vslots_loop_inv(
    b: Seq<u8>,
    p0: int,
    n0: nat,
    pos: int,
    rem: nat,
    views: Seq<VSlotV>,
    prevs: Seq<int>,
) -> bool {
    match spec_vslots(b, pos, rem, views.len() as int) {
        Ok((rest, rprev, ru)) => spec_vslots(b, p0, n0, 0) == Ok::<_, DecodeError>(
            (views + rest, prevs + rprev, ((pos - p0) + ru) as nat),
        ),
        Err(e) => spec_vslots(b, p0, n0, 0) == Err::<(Seq<VSlotV>, Seq<int>, nat), _>(e),
    }
}

/// A negative delta word keeps the loop state: the run of defaults it
/// announces joins the decoded prefix.
proof fn lemma_vslots_step_run(
    b: Seq<u8>,
    p0: int,
    n0: nat,
    pos: int,
    rem: int,
    views: Seq<VSlotV>,
    prevs: Seq<int>,
    changed: i32,
)
    requires
        0 < rem,
        vslots_loop_inv(b, p0, n0, pos, rem as nat, views, prevs),
        pos + 4 <= b.len(),
        crate::bytes::i32_at(b, pos) == changed,
        changed < 0,
    ensures
        vslots_loop_inv(
            b,
            p0,
            n0,
            pos + 4,
            (if rem + changed > 0 {
                (rem + changed) as nat
            } else {
                0nat
            }),
            views + Seq::new(
                (-(changed as int)) as nat,
                |i: int| crate::model::default_vslot_v(views.len() + i),
            ),
            prevs + Seq::new((-(changed as int)) as nat, |i: int| -1int),
        ),
{
    let k = (-(changed as int)) as nat;
    let defaults = Seq::new(k, |i: int| crate::model::default_vslot_v(views.len() + i));
    let dprev = Seq::new(k, |i: int| -1int);
    assert((views + defaults).len() == views.len() + k);
    match spec_vslots(b, pos + 4, (if rem + changed > 0 { (rem + changed) as nat } else { 0nat }), views.len() + k as int) {
        Ok((rest, rprev, ru)) => {
            assert((views + defaults) + rest =~= views + (defaults + rest));
            assert((prevs + dprev) + rprev =~= prevs + (dprev + rprev));
        },
        Err(_) => {},
    }
}

/// A non-negative delta word keeps the loop state: the single decoded
/// slot and its previous-slot index join the decoded prefix.
proof fn lemma_vslots_step_slot(
    b: Seq<u8>,
    p0: int,
    n0: nat,
    pos: int,
    rem: int,
    views: Seq<VSlotV>,
    prevs: Seq<int>,
    changed: i32,
    v: VSlotV,
    u: nat,
)
    requires
        0 < rem,
        vslots_loop_inv(b, p0, n0, pos, rem as nat, views, prevs),
        pos + 8 <= b.len(),
        crate::bytes::i32_at(b, pos) == changed,
        changed >= 0,
        spec_vslot(b, pos + 8, views.len() as int, changed) == Ok::<_, DecodeError>((v, u)),
    ensures
        pos + 8 + u <= b.len(),
        vslots_loop_inv(
            b,
            p0,
            n0,
            pos + 8 + u,
            (rem - 1) as nat,
            views.push(v),
            prevs.push(crate::bytes::le32_signed_at(b, pos + 4)),
        ),
{
    lemma_spec_vslot_bounds(b, pos + 8, views.len() as int, changed);
    let pv = crate::bytes::le32_signed_at(b, pos + 4);
    match spec_vslots(b, pos + 8 + u, (rem - 1) as nat, views.len() as int + 1) {
        Ok((rest, rprev, ru)) => {
            assert(views.push(v) + rest =~= views + (seq![v] + rest));
            assert(prevs.push(pv) + rprev =~= prevs + (seq![pv] + rprev));
        },
        Err(_) => {},
    }
}

impl Parser {
    /// Interns a shader parameter name: the table keeps one copy of
    /// each distinct name, and the returned name always holds the same
    /// bytes as the one passed in. Looking a name up without inserting
    /// is only meaningful when the table already holds it.
    pub fn get_shader_param_name(&mut self, name: Vec<u8>, insert: bool) -> (r: Vec<u8>)
        requires
            insert || old(self).names().contains(name@),
        ensures
            final(self).buf() == old(self).buf(),
            final(self).pos() == old(self).pos(),
            final(self).cube_count == old(self).cube_count,
            r@ == name@,
            final(self).names() == intern1(old(self).names(), name@),
            old(self).names_wf() ==> final(self).names_wf(),
    {
        let n = self.shader_param_names.len();
        let mut i: usize = 0;
        #[verifier::loop_isolation(false)]
        while i < n
            invariant
                i <= n,
                *self == *old(self),
                forall|j: int| 0 <= j < i ==> self.names()[j] != name@,
            decreases n - i,
        {
            if bytes_eq(&self.shader_param_names[i], &name) {
                proof {
                    assert(self.names()[i as int] == name@);
                    assert(self.names().contains(name@));
                }
                return name;
            }
            i = i + 1;
        }
        proof {
            assert forall|j: int| 0 <= j < self.names().len() implies self.names()[j]
                != name@ by {}
            assert(!self.names().contains(name@));
        }
        let copy = clone_bytes(&name);
        self.shader_param_names.push(copy);
        proof {
            assert(self.names() =~= old(self).names().push(name@));
            if old(self).names_wf() {
                assert forall|a: int, c: int|
                    0 <= a < c < self.names().len() implies self.names()[a]
                    != self.names()[c] by {
                    if c < self.names().len() - 1 {
                        assert(old(self).names()[a] != old(self).names()[c]);
                    }
                }
            }
        }
        name
    }

    /// Decodes the SHPARAM section of a vslot body when bit 0 of
    /// `changed` selects it: a parameter count and that many named,
    /// four-value parameter records, interning each name.
    fn parse_shparams(&mut self, changed: i32) -> (r: Result<Vec<SlotShaderParam>, DecodeError>)
        ensures
            final(self).buf() == old(self).buf(),
            final(self).cube_count == old(self).cube_count,
            old(self).names_wf() ==> final(self).names_wf(),
            match sec_shparams(old(self).buf(), old(self).pos(), changed) {
                Ok((ps, u)) => {
                    &&& r matches Ok(out) && out@.map_values(|q: SlotShaderParam| q@) == ps
                    &&& final(self).pos() == old(self).pos() + u
                    &&& final(self).names() == intern_params(old(self).names(), ps)
                },
                Err(e) => r matches Err(e2) && e2 == e,
            },
    {
        let ghost b = old(self).buf();
        let ghost p0 = old(self).pos();
        let mut params: Vec<SlotShaderParam> = Vec::new();
        if changed & 1 == 0 {
            proof {
                assert(params@.map_values(|q: SlotShaderParam| q@) =~= Seq::<ParamV>::empty());
            }
            return Ok(params);
        }
        let num_params = self.parse_to_u16()?;
        let mut j: u16 = 0;
        #[verifier::loop_isolation(false)]
        while j < num_params
            invariant
                changed & 1 != 0,
                j <= num_params,
                self.buf() == b,
                self.cube_count == old(self).cube_count,
                old(self).names_wf() ==> self.names_wf(),
                self.pos() >= p0 + 2,
                self.names() == intern_params(
                    old(self).names(),
                    params@.map_values(|q: SlotShaderParam| q@),
                ),
                match spec_params(b, self.pos(), (num_params - j) as nat) {
                    Ok((rest, ru)) => spec_params(b, p0 + 2, num_params as nat)
                        == Ok::<_, DecodeError>(
                        (
                            params@.map_values(|q: SlotShaderParam| q@) + rest,
                            ((self.pos() - (p0 + 2)) + ru) as nat,
                        ),
                    ),
                    Err(e) => spec_params(b, p0 + 2, num_params as nat) == Err::<
                        (Seq<ParamV>, nat),
                        _,
                    >(e),
                },
            decreases num_params - j,
        {
            let ghost params_before = params@.map_values(|q: SlotShaderParam| q@);
            let ghost pos_before = self.pos();
            let nlen = self.parse_to_u16()?;
            let raw_name = self.parse_to_string(nlen)?;
            let name = self.get_shader_param_name(raw_name, true);
            let x = self.parse_to_f32_bits()?;
            let y = self.parse_to_f32_bits()?;
            let z = self.parse_to_f32_bits()?;
            let w = self.parse_to_f32_bits()?;
            let param = SlotShaderParam { name, loc: -1, values: Float4 { x, y, z, w } };
            proof {
                let spec_param = ParamV {
                    name: b.subrange(pos_before + 2, pos_before + 2 + nlen),
                    loc: -1i32,
                    values: Float4 {
                        x: crate::bytes::u32_at(b, pos_before + 2 + nlen),
                        y: crate::bytes::u32_at(b, pos_before + 2 + nlen + 4),
                        z: crate::bytes::u32_at(b, pos_before + 2 + nlen + 8),
                        w: crate::bytes::u32_at(b, pos_before + 2 + nlen + 12),
                    },
                };
                assert(param@ =~= spec_param);
                lemma_intern_params_push(old(self).names(), params_before, param@);
                assert(params@.push(param).map_values(|q: SlotShaderParam| q@)
                    =~= params_before.push(spec_param));
                match spec_params(b, self.pos(), (num_params - j - 1) as nat) {
                    Ok((rest, ru)) => {
                        assert(params_before.push(spec_param) + rest =~= params_before + (
                        seq![spec_param] + rest));
                    },
                    Err(_) => {},
                }
            }
            params.push(param);
            j = j + 1;
        }
        Ok(params)
    }

    /// Reads one float word when `bit` of `changed` selects it, else
    /// yields `dflt`.
    fn read_sec_word(&mut self, changed: i32, bit: i32, dflt: u32) -> (r: Result<
        u32,
        DecodeError,
    >)
        ensures
            final(self).only_cursor_moved(*old(self)),
            match crate::wire::sec_word(old(self).buf(), old(self).pos(), changed, bit, dflt) {
                Ok((x, u)) => {
                    &&& r matches Ok(v) && v == x
                    &&& final(self).pos() == old(self).pos() + u
                },
                Err(e) => r matches Err(e2) && e2 == e,
            },
    {
        if changed & bit != 0 {
            self.parse_to_f32_bits()
        } else {
            Ok(dflt)
        }
    }

    /// Reads the rotation word when bit 2 of `changed` selects it,
    /// clamped into 0..=7; else yields 0.
    fn read_sec_rotation(&mut self, changed: i32) -> (r: Result<i32, DecodeError>)
        ensures
            final(self).only_cursor_moved(*old(self)),
            match crate::wire::sec_rotation(old(self).buf(), old(self).pos(), changed) {
                Ok((x, u)) => {
                    &&& r matches Ok(v) && v == x
                    &&& final(self).pos() == old(self).pos() + u
                },
                Err(e) => r matches Err(e2) && e2 == e,
            },
    {
        if changed & 4 != 0 {
            let raw = self.parse_to_i32()?;
            if raw < 0 {
                Ok(0)
            } else if raw > 7 {
                Ok(7)
            } else {
                Ok(raw)
            }
        } else {
            Ok(0)
        }
    }

    /// Reads the two offset words when bit 3 of `changed` selects
    /// them, else yields zeroes.
    fn read_sec_offset(&mut self, changed: i32) -> (r: Result<(i32, i32), DecodeError>)
        ensures
            final(self).only_cursor_moved(*old(self)),
            match crate::wire::sec_offset(old(self).buf(), old(self).pos(), changed) {
                Ok((x, u)) => {
                    &&& r matches Ok(v) && v.0 == x.0 && v.1 == x.1
                    &&& final(self).pos() == old(self).pos() + u
                },
                Err(e) => r matches Err(e2) && e2 == e,
            },
    {
        if changed & 8 != 0 {
            let a = self.parse_to_i32()?;
            let c = self.parse_to_i32()?;
            Ok((a, c))
        } else {
            Ok((0, 0))
        }
    }

    /// Reads a pair of float words when `bit` of `changed` selects
    /// them, else yields the defaults.
    fn read_sec_pair(&mut self, changed: i32, bit: i32, d0: u32, d1: u32) -> (r: Result<
        (u32, u32),
        DecodeError,
    >)
        ensures
            final(self).only_cursor_moved(*old(self)),
            match crate::wire::sec_pair(old(self).buf(), old(self).pos(), changed, bit, d0, d1) {
                Ok((x, u)) => {
                    &&& r matches Ok(v) && v.0 == x.0 && v.1 == x.1
                    &&& final(self).pos() == old(self).pos() + u
                },
                Err(e) => r matches Err(e2) && e2 == e,
            },
    {
        if changed & bit != 0 {
            let a = self.parse_to_f32_bits()?;
            let c = self.parse_to_f32_bits()?;
            Ok((a, c))
        } else {
            Ok((d0, d1))
        }
    }

    /// Reads the layer word when bit 5 of `changed` selects it, else
    /// yields 0.
    fn read_sec_layer(&mut self, changed: i32) -> (r: Result<i32, DecodeError>)
        ensures
            final(self).only_cursor_moved(*old(self)),
            match crate::wire::sec_layer(old(self).buf(), old(self).pos(), changed) {
                Ok((x, u)) => {
                    &&& r matches Ok(v) && v == x
                    &&& final(self).pos() == old(self).pos() + u
                },
                Err(e) => r matches Err(e2) && e2 == e,
            },
    {
        if changed & 32 != 0 {
            self.parse_to_i32()
        } else {
            Ok(0)
        }
    }

    /// Reads the three colour words when bit 7 of `changed` selects
    /// them, else yields white.
    fn read_sec_color(&mut self, changed: i32) -> (r: Result<(u32, u32, u32), DecodeError>)
        ensures
            final(self).only_cursor_moved(*old(self)),
            match crate::wire::sec_color(old(self).buf(), old(self).pos(), changed) {
                Ok((x, u)) => {
                    &&& r matches Ok(v) && v.0 == x.0 && v.1 == x.1 && v.2 == x.2
                    &&& final(self).pos() == old(self).pos() + u
                },
                Err(e) => r matches Err(e2) && e2 == e,
            },
    {
        if changed & 128 != 0 {
            let a = self.parse_to_f32_bits()?;
            let c = self.parse_to_f32_bits()?;
            let d = self.parse_to_f32_bits()?;
            Ok((a, c, d))
        } else {
            Ok((F32_ONE_BITS, F32_ONE_BITS, F32_ONE_BITS))
        }
    }

    /// Decodes the seven fixed-size sections of a vslot body, each
    /// selected by its bit of `changed` and defaulted otherwise.
    fn parse_vslot_tail(&mut self, changed: i32) -> (r: Result<VSlotTail, DecodeError>)
        ensures
            final(self).buf() == old(self).buf(),
            final(self).cube_count == old(self).cube_count,
            final(self).names() == old(self).names(),
            match sec_tail(old(self).buf(), old(self).pos(), changed) {
                Ok((t, u)) => {
                    &&& r matches Ok(out) && out@ == t
                    &&& final(self).pos() == old(self).pos() + u
                },
                Err(e) => r matches Err(e2) && e2 == e,
            },
    {
        let scale = self.read_sec_word(changed, 2, F32_ONE_BITS)?;
        let rotation = self.read_sec_rotation(changed)?;
        let (offset_x, offset_y) = self.read_sec_offset(changed)?;
        let (scroll_x, scroll_y) = self.read_sec_pair(changed, 16, F32_ZERO_BITS, F32_ZERO_BITS)?;
        let layer = self.read_sec_layer(changed)?;
        let (alpha_front, alpha_back) = self.read_sec_pair(
            changed,
            64,
            F32_HALF_BITS,
            F32_ZERO_BITS,
        )?;
        let (color_r, color_g, color_b) = self.read_sec_color(changed)?;
        let out = VSlotTail {
            scale,
            rotation,
            offset_x,
            offset_y,
            scroll_x,
            scroll_y,
            layer,
            alpha_front,
            alpha_back,
            color_r,
            color_g,
            color_b,
        };
        proof {
            match sec_tail(old(self).buf(), old(self).pos(), changed) {
                Ok((t, u)) => {
                    assert(out@ =~= t);
                },
                Err(_) => {},
            }
        }
        Ok(out)
    }

    /// Decodes one non-default vslot body at list position
    /// `vslot_length`: the parameter list, then the fixed-size
    /// sections selected by the bits of `changed`, with every
    /// unselected field left at its default. Freshly interned
    /// parameter names land in the name table.
    pub fn parse_vslot(&mut self, vslot_length: usize, changed: i32) -> (r: Result<
        VSlot,
        DecodeError,
    >)
        ensures
            final(self).buf() == old(self).buf(),
            final(self).cube_count == old(self).cube_count,
            old(self).names_wf() ==> final(self).names_wf(),
            match spec_vslot(old(self).buf(), old(self).pos(), vslot_length as int, changed) {
                Ok((v, u)) => {
                    &&& r matches Ok(vs) && vs@ == v && vs.slot is None
                    &&& final(self).pos() == old(self).pos() + u
                    &&& final(self).names() == intern_params(old(self).names(), v.params)
                },
                Err(e) => r matches Err(e2) && e2 == e,
            },
    {
        let ghost b = old(self).buf();
        let ghost p0 = old(self).pos();
        let params = self.parse_shparams(changed)?;
        let t = self.parse_vslot_tail(changed)?;
        let vslot = VSlot {
            slot: None,
            next: None,
            index: vslot_length,
            changed,
            params,
            linked: false,
            scale: t.scale,
            rotation: t.rotation,
            offset: crate::types::Vector2 { x: t.offset_x, y: t.offset_y },
            scroll: crate::types::Vector2 { x: t.scroll_x, y: t.scroll_y },
            layer: t.layer,
            alpha_front: t.alpha_front,
            alpha_back: t.alpha_back,
            color_scale: crate::types::Vector3 { x: t.color_r, y: t.color_g, z: t.color_b },
            glow_color: crate::types::Vector3 { x: F32_ONE_BITS, y: F32_ONE_BITS, z: F32_ONE_BITS },
        };
        proof {
            match spec_vslot(b, p0, vslot_length as int, changed) {
                Ok((v, u)) => {
                    assert(vslot@ =~= v);
                },
                Err(_) => {},
            }
        }
        Ok(vslot)
    }

    /// One turn of the vslot-list loop: reads a delta word and either
    /// appends the run of defaults it announces or decodes one slot
    /// body with its previous-slot index.
    fn vslot_list_step(
        &mut self,
        vslots: &mut Vec<VSlot>,
        prev: &mut Vec<i32>,
        remaining: &mut i64,
        Ghost(orig): Ghost<Parser>,
        Ghost(p0): Ghost<int>,
        Ghost(n0): Ghost<nat>,
    ) -> (r: Result<(), DecodeError>)
        requires
            *old(remaining) > 0,
            old(self).buf() == orig.buf(),
            old(self).cube_count == orig.cube_count,
            orig.names_wf() ==> old(self).names_wf(),
            old(self).pos() >= p0,
            old(vslots)@.len() == old(prev)@.len(),
            forall|i: int|
                0 <= i < old(vslots)@.len() ==> (#[trigger] old(vslots)@[i]).slot is None,
            old(self).names() == intern_vslots(
                orig.names(),
                old(vslots)@.map_values(|v: VSlot| v@),
            ),
            vslots_loop_inv(
                orig.buf(),
                p0,
                n0,
                old(self).pos(),
                *old(remaining) as nat,
                old(vslots)@.map_values(|v: VSlot| v@),
                old(prev)@.map_values(|x: i32| x as int),
            ),
        ensures
            final(self).buf() == orig.buf(),
            final(self).cube_count == orig.cube_count,
            orig.names_wf() ==> final(self).names_wf(),
            match r {
                Ok(_) => {
                    &&& *final(remaining) < *old(remaining)
                    &&& final(self).pos() >= p0
                    &&& final(vslots)@.len() == final(prev)@.len()
                    &&& forall|i: int|
                        0 <= i < final(vslots)@.len() ==> (#[trigger] final(vslots)@[i]).slot
                            is None
                    &&& final(self).names() == intern_vslots(
                        orig.names(),
                        final(vslots)@.map_values(|v: VSlot| v@),
                    )
                    &&& vslots_loop_inv(
                        orig.buf(),
                        p0,
                        n0,
                        final(self).pos(),
                        (if *final(remaining) > 0 {
                            *final(remaining) as nat
                        } else {
                            0nat
                        }),
                        final(vslots)@.map_values(|v: VSlot| v@),
                        final(prev)@.map_values(|x: i32| x as int),
                    )
                },
                Err(e) => spec_vslots(orig.buf(), p0, n0, 0) == Err::<
                    (Seq<VSlotV>, Seq<int>, nat),
                    _,
                >(e),
            },
    {
        let ghost b = orig.buf();
        let ghost views_before = vslots@.map_values(|v: VSlot| v@);
        let ghost prevs_before = prev@.map_values(|x: i32| x as int);
        let ghost pos_before = self.pos();
        let changed = self.parse_to_i32()?;
        if changed < 0 {
            let k = -(changed as i64);
            proof {
                lemma_vslots_step_run(
                    b,
                    p0,
                    n0,
                    pos_before,
                    *old(remaining) as int,
                    views_before,
                    prevs_before,
                    changed,
                );
                let defaults = Seq::new(
                    (-(changed as int)) as nat,
                    |i: int| crate::model::default_vslot_v(views_before.len() + i),
                );
                crate::wire::lemma_intern_vslots_concat(orig.names(), views_before, defaults);
                lemma_intern_vslots_defaults(
                    intern_vslots(orig.names(), views_before),
                    defaults,
                );
            }
            push_default_run(vslots, prev, k);
            *remaining = *remaining + changed as i64;
        } else {
            let prev_index = self.parse_to_i32()?;
            let idx = vslots.len();
            let v = self.parse_vslot(idx, changed)?;
            proof {
                lemma_vslots_step_slot(
                    b,
                    p0,
                    n0,
                    pos_before,
                    *old(remaining) as int,
                    views_before,
                    prevs_before,
                    changed,
                    v@,
                    (self.pos() - (pos_before + 8)) as nat,
                );
                lemma_intern_vslots_push(orig.names(), views_before, v@);
                assert(vslots@.push(v).map_values(|q: VSlot| q@) =~= views_before.push(v@));
                assert(prev@.push(prev_index).map_values(|x: i32| x as int)
                    =~= prevs_before.push(prev_index as int));
            }
            vslots.push(v);
            prev.push(prev_index);
            *remaining = *remaining - 1;
        }
        Ok(())
    }

    /// Decodes the raw vslot delta list: the slots in order and the
    /// side table of previous-slot indices, before the next-link
    /// post-pass.
    fn parse_vslots_raw(&mut self, vslot_count: u32) -> (r: Result<
        (Vec<VSlot>, Vec<i32>),
        DecodeError,
    >)
        ensures
            final(self).buf() == old(self).buf(),
            final(self).cube_count == old(self).cube_count,
            old(self).names_wf() ==> final(self).names_wf(),
            match spec_vslots(old(self).buf(), old(self).pos(), vslot_count as nat, 0) {
                Ok((slots, prevs, u)) => {
                    &&& r matches Ok(out) && out.0@.map_values(|v: VSlot| v@) == slots
                        && out.1@.map_values(|x: i32| x as int) == prevs && (forall|i: int|
                        0 <= i < out.0@.len() ==> (#[trigger] out.0@[i]).slot is None)
                        && out.0@.len() == out.1@.len()
                    &&& final(self).pos() == old(self).pos() + u
                    &&& final(self).names() == intern_vslots(old(self).names(), slots)
                },
                Err(e) => r matches Err(e2) && e2 == e,
            },
    {
        let ghost b = old(self).buf();
        let ghost p0 = old(self).pos();
        let ghost n0 = vslot_count as nat;
        let mut vslots: Vec<VSlot> = Vec::new();
        let mut prev: Vec<i32> = Vec::new();
        let mut remaining: i64 = vslot_count as i64;
        proof {
            assert(vslots@.map_values(|v: VSlot| v@) =~= Seq::<VSlotV>::empty());
            assert(prev@.map_values(|x: i32| x as int) =~= Seq::<int>::empty());
            match spec_vslots(b, p0, n0, 0) {
                Ok((rest, rprev, ru)) => {
                    assert(Seq::<VSlotV>::empty() + rest =~= rest);
                    assert(Seq::<int>::empty() + rprev =~= rprev);
                },
                Err(_) => {},
            }
            if n0 == 0 {
                assert(spec_vslots(b, p0, 0nat, 0) == Ok::<_, DecodeError>(
                    (Seq::<VSlotV>::empty(), Seq::<int>::empty(), 0nat),
                ));
            }
        }
        #[verifier::loop_isolation(false)]
        while remaining > 0
            invariant
                self.buf() == b,
                self.cube_count == old(self).cube_count,
                old(self).names_wf() ==> self.names_wf(),
                self.pos() >= p0,
                vslots@.len() == prev@.len(),
                forall|i: int| 0 <= i < vslots@.len() ==> (#[trigger] vslots@[i]).slot is None,
                self.names() == intern_vslots(
                    old(self).names(),
                    vslots@.map_values(|v: VSlot| v@),
                ),
                vslots_loop_inv(
                    b,
                    p0,
                    n0,
                    self.pos(),
                    (if remaining > 0 {
                        remaining as nat
                    } else {
                        0nat
                    }),
                    vslots@.map_values(|v: VSlot| v@),
                    prev@.map_values(|x: i32| x as int),
                ),
            decreases (if remaining > 0 {
                remaining
            } else {
                0
            }),
        {
            self.vslot_list_step(
                &mut vslots,
                &mut prev,
                &mut remaining,
                Ghost(*old(self)),
                Ghost(p0),
                Ghost(n0),
            )?;
        }
        proof {
            let s0 = vslots@.map_values(|v: VSlot| v@);
            let pr0 = prev@.map_values(|x: i32| x as int);
            assert(spec_vslots(b, self.pos(), 0nat, s0.len() as int) == Ok::<_, DecodeError>(
                (Seq::<VSlotV>::empty(), Seq::<int>::empty(), 0nat),
            ));
            assert(s0 + Seq::<VSlotV>::empty() =~= s0);
            assert(pr0 + Seq::<int>::empty() =~= pr0);
        }
        Ok((vslots, prev))
    }

    /// Decodes the whole vslot section: `vslot_count` slots announced
    /// by the header, produced as runs of defaults (negative delta
    /// words) or single decoded bodies, then linked by the next-link
    /// post-pass.
    pub fn parse_vslots(&mut self, vslot_count: u32) -> (r: Result<Vec<VSlot>, DecodeError>)
        ensures
            final(self).buf() == old(self).buf(),
            final(self).cube_count == old(self).cube_count,
            old(self).names_wf() ==> final(self).names_wf(),
            match spec_vslots(old(self).buf(), old(self).pos(), vslot_count as nat, 0) {
                Ok((slots, prevs, u)) => {
                    &&& r matches Ok(vs) && vs@.map_values(|v: VSlot| v@) == link_next(
                        slots,
                        prevs,
                    ) && (forall|i: int| 0 <= i < vs@.len() ==> (#[trigger] vs@[i]).slot is None)
                    &&& final(self).pos() == old(self).pos() + u
                    &&& final(self).names() == intern_vslots(old(self).names(), slots)
                },
                Err(e) => r matches Err(e2) && e2 == e,
            },
    {
        let (mut vslots, prev) = self.parse_vslots_raw(vslot_count)?;
        link_vslot_nexts(&mut vslots, &prev);
        Ok(vslots)
    }
}

/// Appends `k` default vslots to the list, each indexed by its final
/// position, and `k` "no previous slot" markers to the side table.
fn push_default_run(vslots: &mut Vec<VSlot>, prev: &mut Vec<i32>, k: i64)
    requires
        k >= 0,
    ensures
        final(vslots)@.map_values(|v: VSlot| v@) == old(vslots)@.map_values(|v: VSlot| v@)
            + Seq::new(k as nat, |i: int| crate::model::default_vslot_v(old(vslots)@.len() + i)),
        final(prev)@.map_values(|x: i32| x as int) == old(prev)@.map_values(|x: i32| x as int)
            + Seq::new(k as nat, |i: int| -1int),
        final(vslots)@.len() == old(vslots)@.len() + k,
        final(prev)@.len() == old(prev)@.len() + k,
        forall|i: int|
            0 <= i < old(vslots)@.len() ==> (#[trigger] final(vslots)@[i]).slot == old(vslots)@[i].slot,
        forall|i: int|
            old(vslots)@.len() <= i < final(vslots)@.len() ==> (#[trigger] final(vslots)@[i]).slot is None,
{
    let ghost vslots0 = vslots@;
    let ghost prev0 = prev@;
    let ghost base = vslots@.len() as int;
    let mut c: i64 = 0;
    #[verifier::loop_isolation(false)]
    while c < k
        invariant
            0 <= c <= k,
            vslots@.len() == vslots0.len() + c,
            prev@.len() == prev0.len() + c,
            forall|j: int| 0 <= j < vslots0.len() ==> vslots@[j] == vslots0[j],
            forall|j: int| 0 <= j < prev0.len() ==> prev@[j] == prev0[j],
            forall|j: int|
                0 <= j < c ==> (#[trigger] vslots@[vslots0.len() + j])@
                    == crate::model::default_vslot_v(base + j) && vslots@[vslots0.len() + j].slot
                    is None,
            forall|j: int| 0 <= j < c ==> #[trigger] prev@[prev0.len() + j] == -1,
        decreases k - c,
    {
        let idx = vslots.len();
        vslots.push(VSlot::new(None, idx));
        prev.push(-1);
        c = c + 1;
    }
    proof {
        assert forall|i: int| 0 <= i < vslots@.len() implies (#[trigger] vslots@[i])@
            == (vslots0.map_values(|v: VSlot| v@) + Seq::new(
            k as nat,
            |j: int| crate::model::default_vslot_v(base + j),
        ))[i] by {
            if i >= vslots0.len() {
                assert(vslots@[vslots0.len() + (i - vslots0.len())]@
                    == crate::model::default_vslot_v(base + (i - vslots0.len())));
            }
        }
        assert(vslots@.map_values(|v: VSlot| v@) =~= vslots0.map_values(|v: VSlot| v@)
            + Seq::new(k as nat, |i: int| crate::model::default_vslot_v(base + i)));
        assert forall|i: int| 0 <= i < prev@.len() implies (#[trigger] prev@[i]) as int
            == (prev0.map_values(|x: i32| x as int) + Seq::new(k as nat, |j: int| -1int))[i] by {
            if i >= prev0.len() {
                assert(prev@[prev0.len() + (i - prev0.len())] == -1);
            }
        }
        assert(prev@.map_values(|x: i32| x as int) =~= prev0.map_values(|x: i32| x as int)
            + Seq::new(k as nat, |i: int| -1int));
        assert forall|i: int|
            old(vslots)@.len() <= i < vslots@.len() implies (vslots@[i]).slot is None by {
            assert(vslots@[vslots0.len() + (i - vslots0.len())].slot is None);
        }
    }
}

/// The next-link post-pass over a freshly decoded vslot list: each
/// slot whose recorded previous-slot index is in range points its
/// `next` edge at that index; out-of-range indices are dropped.
fn link_vslot_nexts(vslots: &mut Vec<VSlot>, prev: &Vec<i32>)
    requires
        old(vslots)@.len() == prev@.len(),
    ensures
        final(vslots)@.len() == old(vslots)@.len(),
        final(vslots)@.map_values(|v: VSlot| v@) == link_next(
            old(vslots)@.map_values(|v: VSlot| v@),
            prev@.map_values(|x: i32| x as int),
        ),
        forall|i: int|
            0 <= i < final(vslots)@.len() ==> (#[trigger] final(vslots)@[i]).slot == old(vslots)@[i].slot,
{
    let ghost s0 = old(vslots)@.map_values(|v: VSlot| v@);
    let ghost pr0 = prev@.map_values(|x: i32| x as int);
    let n = vslots.len();
    let mut pos_i: usize = 0;
    #[verifier::loop_isolation(false)]
    while pos_i < n
        invariant
            pos_i <= n,
            vslots@.len() == n,
            forall|j: int|
                pos_i <= j < n ==> vslots@[j] == old(vslots)@[j],
            forall|j: int|
                0 <= j < pos_i ==> (#[trigger] vslots@[j])@ == link_next(s0, pr0)[j] && vslots@[
                    j
                ].slot == old(vslots)@[j].slot,
        decreases n - pos_i,
    {
        let pv = prev[pos_i];
        if pv >= 0 && (pv as usize) < n {
            vslots[pos_i].next = Some(pv as usize);
            proof {
                assert(vslots@[pos_i as int]@ =~= with_next(s0[pos_i as int], pv as int));
            }
        }
        pos_i = pos_i + 1;
    }
    proof {
        assert(vslots@.map_values(|v: VSlot| v@) =~= link_next(s0, pr0));
    }
}

} // verus!