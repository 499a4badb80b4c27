use vstd::prelude::*;

use crate::error::DecodeError;
use crate::model::{
    base_cube_v, children_depth, cube_depth, cube_wf, edge_face_wf, CubeV, VarBodyV,
};
use crate::wire::{
    adv, lemma_spec_cube_bounds, link_next, sec_shparams, sec_tail, spec_children, spec_cube,
    spec_surface, spec_variable, spec_vslot, spec_vslots, spec_vslots_linked,
};

verus! {

// The decoder's general guarantees, each proved once over the wire
// model that every executable contract refers to.

/// A decoded string-typed game variable carries a length field equal
/// to the byte length of its text.
pub proof fn lemma_variable_string_len(b: Seq<u8>, p: int)
    requires
        0 <= p,
    ensures
        match spec_variable(b, p) {
            Ok((v, _)) => match v.body {
                VarBodyV::Str(len, text) => text.len() == len,
                _ => true,
            },
            Err(_) => true,
        },
{
    match spec_variable(b, p) {
        Ok((v, _)) => {
            match v.body {
                VarBodyV::Str(len, text) => {
                    assert(text.len() == len);
                },
                _ => {},
            }
        },
        Err(_) => {},
    }
}

/// A cube decoded without a soft failure is well-formed: eight child
/// slots that are all present (an interior or LOD node) or all absent
/// (a leaf), 12 edge bytes or 3 face words, six face textures, and
/// the same recursively below.
pub proof fn lemma_cube_decode_wf(b: Seq<u8>, p: int, base: CubeV)
    requires
        edge_face_wf(base.edge_face),
        base.textures.len() == 6,
    ensures
        match spec_cube(b, p, base) {
            Ok(out) => !out.failed ==> cube_wf(out.cube),
            Err(_) => true,
        },
    decreases b.len() - p, 0int,
{
    if 0 <= p && p + 1 <= b.len() {
        let sav = b[p];
        let k = sav & 7;
        if k == 0 {
            lemma_children_decode_wf(b, p + 1, 0);
            crate::wire::lemma_spec_children_bounds(b, p + 1, 0);
            match spec_children(b, p + 1, 0) {
                Ok(ch) => {
                    if !ch.failed {
                        let out = spec_cube(b, p, base)->Ok_0;
                        assert(forall|i: int| 0 <= i < 8 ==> out.cube.children[i] is Some);
                    }
                },
                Err(_) => {},
            }
        } else if k > 4 {
        } else {
            let edge_used: nat = if k == 3 {
                12nat
            } else {
                0nat
            };
            if p + 1 + edge_used <= b.len() {
                let q1 = p + 1 + edge_used;
                if q1 + 12 <= b.len() {
                    let q2 = q1 + 12;
                    let mat_used: nat = if sav & 0x40 != 0 {
                        2nat
                    } else {
                        0nat
                    };
                    if q2 + mat_used <= b.len() {
                        let q3 = q2 + mat_used;
                        let mrg_used: nat = if sav & 0x80 != 0 {
                            1nat
                        } else {
                            0nat
                        };
                        if q3 + mrg_used <= b.len() {
                            let q4 = q3 + mrg_used;
                            let surf: Result<nat, DecodeError> = if sav & 0x20 != 0 {
                                spec_surface(b, q4)
                            } else {
                                Ok(0nat)
                            };
                            match surf {
                                Err(_) => {},
                                Ok(su) => {
                                    let q5 = adv(b, q4, su);
                                    if k == 4 {
                                        lemma_children_decode_wf(b, q5, 0);
                                        crate::wire::lemma_spec_children_bounds(b, q5, 0);
                                        match spec_children(b, q5, 0) {
                                            Ok(ch) => {
                                                if !ch.failed {
                                                    let out = spec_cube(b, p, base)->Ok_0;
                                                    assert(forall|i: int|
                                                        0 <= i < 8 ==> out.cube.children[i]
                                                            is Some);
                                                }
                                            },
                                            Err(_) => {},
                                        }
                                    } else {
                                        let out = spec_cube(b, p, base)->Ok_0;
                                        assert(forall|i: int|
                                            0 <= i < 8 ==> out.cube.children[i] is None);
                                    }
                                },
                            }
                        }
                    }
                }
            }
        }
    }
}

/// Every child of a children block decoded without a soft failure is
/// present and well-formed.
pub proof fn lemma_children_decode_wf(b: Seq<u8>, p: int, i: int)
    requires
        i <= 8,
    ensures
        match spec_children(b, p, i) {
            Ok(out) => !out.failed ==> forall|j: int|
                0 <= j < out.kids.len() ==> ((#[trigger] out.kids[j]) matches Some(c)
                    && cube_wf(c)),
            Err(_) => true,
        },
    decreases b.len() - p, 1int, 8 - i,
{
    if 0 <= p <= b.len() && i < 8 {
        lemma_cube_decode_wf(b, p, base_cube_v(0, 0));
        match spec_cube(b, p, base_cube_v(0, 0)) {
            Err(_) => {},
            Ok(co) => {
                if !co.failed {
                    lemma_children_decode_wf(b, adv(b, p, co.used), i + 1);
                }
            },
        }
    }
}

/// Every vslot in the raw delta list has no next-link yet, a rotation
/// already clamped into 0..=7, and an index equal to its position
/// offset by the base of the run.
pub proof fn lemma_vslots_fields(b: Seq<u8>, p: int, rem: nat, base: int)
    ensures
        match spec_vslots(b, p, rem, base) {
            Ok((slots, prevs, _)) => {
                &&& slots.len() == prevs.len()
                &&& forall|i: int|
                    0 <= i < slots.len() ==> (#[trigger] slots[i]).next is None && 0 <= slots[
                        i
                    ].rotation <= 7 && slots[i].index == base + i
            },
            Err(_) => true,
        },
    decreases rem,
{
    if rem > 0 && p + 4 <= b.len() {
        let changed = crate::bytes::i32_at(b, p);
        if changed < 0 {
            let k = (-(changed as int)) as nat;
            let next_rem: nat = if rem + changed >= 0 {
                (rem + changed) as nat
            } else {
                0nat
            };
            lemma_vslots_fields(b, p + 4, next_rem, base + k);
        } else {
            if p + 8 <= b.len() {
                match spec_vslot(b, p + 8, base, changed) {
                    Err(_) => {},
                    Ok((v, u)) => {
                        lemma_vslot_rotation(b, p + 8, base, changed);
                        lemma_vslots_fields(b, adv(b, p + 8, u), (rem - 1) as nat, base + 1);
                    },
                }
            }
        }
    }
}

/// A decoded vslot body's rotation is already clamped into 0..=7, and
/// it carries no next-link.
pub proof fn lemma_vslot_rotation(b: Seq<u8>, p: int, index: int, changed: i32)
    ensures
        match spec_vslot(b, p, index, changed) {
            Ok((v, _)) => v.next is None && 0 <= v.rotation <= 7 && v.index == index,
            Err(_) => true,
        },
{
    match sec_shparams(b, p, changed) {
        Err(_) => {},
        Ok((_, u0)) => {
            match sec_tail(b, p + u0, changed) {
                Err(_) => {},
                Ok((t, _)) => {
                    assert(0 <= t.rotation <= 7) by {
                        if changed & 2 != 0 {
                        }
                    }
                },
            }
        },
    }
}

/// After the next-link post-pass, every vslot's next-link is absent
/// or names an index inside the list, and every rotation lies in
/// 0..=7.
pub proof fn lemma_vslots_linked_wf(b: Seq<u8>, p: int, rem: nat)
    ensures
        match spec_vslots_linked(b, p, rem) {
            Ok((slots, _)) => forall|i: int|
                0 <= i < slots.len() ==> (match (#[trigger] slots[i]).next {
                    Some(j) => 0 <= j < slots.len(),
                    None => true,
                }) && 0 <= slots[i].rotation <= 7 && slots[i].index == i,
            Err(_) => true,
        },
{
    lemma_vslots_fields(b, p, rem, 0);
    match spec_vslots(b, p, rem, 0) {
        Err(_) => {},
        Ok((slots, prevs, _)) => {
            let linked = link_next(slots, prevs);
            assert forall|i: int| 0 <= i < linked.len() implies (match (#[trigger] linked[
                i
            ]).next {
                Some(j) => 0 <= j < linked.len(),
                None => true,
            }) && 0 <= linked[i].rotation <= 7 && linked[i].index == i by {
                assert(slots[i].next is None);
            }
        },
    }
}

/// A sequence whose present cubes all have depth at most `d` nests at
/// most `d` deep.
pub proof fn lemma_children_depth_bound(s: Seq<Option<CubeV>>, d: nat)
    requires
        forall|i: int| 0 <= i < s.len() ==> match #[trigger] s[i] {
            Some(c) => cube_depth(c) <= d,
            None => true,
        },
    ensures
        children_depth(s) <= d,
    decreases s.len(),
{
    if s.len() > 0 {
        lemma_children_depth_bound(s.drop_last(), d);
    }
}

/// A decoded cube nests no deeper than the number of bytes its
/// record occupies: every level of descent costs at least one byte.
/// The wire format itself places no world-size bound on nesting.
pub proof fn lemma_cube_depth_le_used(b: Seq<u8>, p: int, base: CubeV)
    requires
        forall|j: int| 0 <= j < base.children.len() ==> (#[trigger] base.children[j]) is None,
    ensures
        match spec_cube(b, p, base) {
            Ok(out) => cube_depth(out.cube) <= out.used,
            Err(_) => true,
        },
    decreases b.len() - p, 0int,
{
    lemma_spec_cube_bounds(b, p, base);
    if 0 <= p && p + 1 <= b.len() {
        let sav = b[p];
        let k = sav & 7;
        if k == 0 {
            lemma_children_depth_le_used(b, p + 1, 0);
            match spec_children(b, p + 1, 0) {
                Ok(ch) => {
                    let out = spec_cube(b, p, base)->Ok_0;
                    lemma_children_depth_bound(ch.kids, ch.used);
                },
                Err(_) => {},
            }
        } else if k > 4 {
            lemma_children_depth_bound(base.children, 0);
        } else {
            let edge_used: nat = if k == 3 {
                12nat
            } else {
                0nat
            };
            if p + 1 + edge_used <= b.len() {
                let q1 = p + 1 + edge_used;
                if q1 + 12 <= b.len() {
                    let q2 = q1 + 12;
                    let mat_used: nat = if sav & 0x40 != 0 {
                        2nat
                    } else {
                        0nat
                    };
                    if q2 + mat_used <= b.len() {
                        let q3 = q2 + mat_used;
                        let mrg_used: nat = if sav & 0x80 != 0 {
                            1nat
                        } else {
                            0nat
                        };
                        if q3 + mrg_used <= b.len() {
                            let q4 = q3 + mrg_used;
                            let surf: Result<nat, DecodeError> = if sav & 0x20 != 0 {
                                spec_surface(b, q4)
                            } else {
                                Ok(0nat)
                            };
                            match surf {
                                Err(_) => {},
                                Ok(su) => {
                                    let q5 = adv(b, q4, su);
                                    if k == 4 {
                                        lemma_children_depth_le_used(b, q5, 0);
                                        match spec_children(b, q5, 0) {
                                            Ok(ch) => {
                                                lemma_children_depth_bound(ch.kids, ch.used);
                                            },
                                            Err(_) => {},
                                        }
                                    } else {
                                        let out = spec_cube(b, p, base)->Ok_0;
                                        lemma_children_depth_bound(out.cube.children, 0);
                                    }
                                },
                            }
                        }
                    }
                }
            }
        }
    }
}

/// No cube of a decoded children block nests deeper than the bytes
/// the whole block occupies.
pub proof fn lemma_children_depth_le_used(b: Seq<u8>, p: int, i: int)
    requires
        i <= 8,
    ensures
        match spec_children(b, p, i) {
            Ok(out) => forall|j: int|
                0 <= j < out.kids.len() ==> match #[trigger] out.kids[j] {
                    Some(c) => cube_depth(c) <= out.used,
                    None => true,
                },
            Err(_) => true,
        },
    decreases b.len() - p, 1int, 8 - i,
{
    if 0 <= p <= b.len() && i < 8 {
        lemma_cube_depth_le_used(b, p, base_cube_v(0, 0));
        lemma_spec_cube_bounds(b, p, base_cube_v(0, 0));
        match spec_cube(b, p, base_cube_v(0, 0)) {
            Err(_) => {},
            Ok(co) => {
                if !co.failed {
                    lemma_children_depth_le_used(b, adv(b, p, co.used), i + 1);
                }
            },
        }
    }
}

/// The depth of a whole decoded children block is bounded by the
/// bytes it occupies.
pub proof fn lemma_octree_depth_le_used(b: Seq<u8>, p: int)
    ensures
        match spec_children(b, p, 0) {
            Ok(out) => children_depth(out.kids) <= out.used,
            Err(_) => true,
        },
{
    lemma_children_depth_le_used(b, p, 0);
    match spec_children(b, p, 0) {
        Ok(out) => {
            lemma_children_depth_bound(out.kids, out.used);
        },
        Err(_) => {},
    }
}

} // verus!
