use vstd::prelude::*;

use crate::cursor::Parser;
use crate::error::DecodeError;
use crate::model::{base_cube_v, children_view, lemma_children_view, CubeV};
use crate::types::{Cube, EdgeFace, EscapedVisible, Vector3};
use crate::wire::{
    lemma_sat_add64_assoc, lemma_spec_cube_bounds, sat_add64, spec_children, spec_cube,
    spec_faces, spec_surface, CubeOut, KidsOut,
};

verus! {

/// Eight empty child slots.
fn none_children() -> (r: Vec<Option<Box<Cube>>>)
    ensures
        r@.len() == 8,
        forall|i: int| 0 <= i < 8 ==> (#[trigger] r@[i]) is None,
{
    let mut out: Vec<Option<Box<Cube>>> = Vec::new();
    let mut i: usize = 0;
    #[verifier::loop_isolation(false)]
    while i < 8
        invariant
            i <= 8,
            out@.len() == i,
            forall|j: int| 0 <= j < i ==> (#[trigger] out@[j]) is None,
        decreases 8 - i,
    {
        out.push(None);
        i = i + 1;
    }
    out
}

/// Three packed face words of the same value.
fn three_faces(face: u32) -> (r: Vec<u32>)
    ensures
        r@ == seq![face, face, face],
{
    let mut out: Vec<u32> = Vec::new();
    out.push(face);
    out.push(face);
    out.push(face);
    proof {
        assert(out@ =~= seq![face, face, face]);
    }
    out
}

/// The running state of the children loop. Before any soft failure the
/// child slots decoded so far, composed with whatever the rest of the
/// stream yields, equal the whole block's outcome; after one they
/// already are that outcome.
pub open spec fn kids_loop_inv(
    b: Seq<u8>,
    p0: int,
    pos: int,
    i: int,
    kids_prefix: Seq<Option<CubeV>>,
    calls: nat,
    fl: bool,
) -> bool {
    if fl {
        spec_children(b, p0, 0) == Ok::<KidsOut, DecodeError>(
            KidsOut { kids: kids_prefix, used: (pos - p0) as nat, failed: true, calls },
        )
    } else {
        match spec_children(b, pos, i) {
            Ok(rest) => spec_children(b, p0, 0) == Ok::<_, DecodeError>(
                KidsOut {
                    kids: kids_prefix + rest.kids,
                    used: ((pos - p0) + rest.used) as nat,
                    failed: rest.failed,
                    calls: (calls + rest.calls) as nat,
                },
            ),
            Err(e) => spec_children(b, p0, 0) == Err::<KidsOut, _>(e),
        }
    }
}

/// One decoded child keeps the children loop's state, whether or not
/// it stopped the descent.
proof fn lemma_kids_step(
    b: Seq<u8>,
    p0: int,
    pos: int,
    i: int,
    kids_prefix: Seq<Option<CubeV>>,
    calls: nat,
    co: CubeOut,
)
    requires
        0 <= i < 8,
        0 <= pos <= b.len(),
        kids_loop_inv(b, p0, pos, i, kids_prefix, calls, false),
        spec_cube(b, pos, base_cube_v(0, 0)) == Ok::<CubeOut, DecodeError>(co),
    ensures
        1 <= co.used,
        pos + co.used <= b.len(),
        !co.failed ==> kids_loop_inv(
            b,
            p0,
            pos + co.used,
            i + 1,
            kids_prefix.push(Some(co.cube)),
            (calls + 1 + co.calls) as nat,
            false,
        ),
        co.failed ==> kids_loop_inv(
            b,
            p0,
            pos + co.used,
            i + 1,
            kids_prefix.push(Some(co.cube)) + Seq::new((7 - i) as nat, |j: int| None),
            (calls + 1 + co.calls) as nat,
            true,
        ),
{
    lemma_spec_cube_bounds(b, pos, base_cube_v(0, 0));
    if co.failed {
        assert(kids_prefix + (seq![Some(co.cube)] + Seq::new((7 - i) as nat, |j: int| None))
            =~= kids_prefix.push(Some(co.cube)) + Seq::new((7 - i) as nat, |j: int| None));
    } else {
        match spec_children(b, pos + co.used, i + 1) {
            Ok(rest) => {
                assert(kids_prefix.push(Some(co.cube)) + rest.kids =~= kids_prefix + (seq![
                    Some(co.cube),
                ] + rest.kids));
            },
            Err(_) => {},
        }
    }
}

impl Parser {
    /// Eight freshly initialised cubes, the state every child slot is
    /// in before its bytes are read: faces packed from `face` (empty
    /// space when absent), texture 1 everywhere, the given material
    /// (air when absent), nothing merged, nothing visible.
    pub fn new_cubes(face: Option<u32>, material: Option<u16>) -> (r: Vec<Cube>)
        ensures
            r@.len() == 8,
            forall|i: int|
                0 <= i < 8 ==> (#[trigger] r@[i])@ == base_cube_v(
                    match face {
                        Some(f) => f,
                        None => 0u32,
                    },
                    match material {
                        Some(m) => m,
                        None => 0u16,
                    },
                ),
    {
        let face = match face {
            Some(f) => f,
            None => 0,
        };
        let material = match material {
            Some(m) => m,
            None => 0,
        };
        let mut cubes: Vec<Cube> = Vec::new();
        let mut i: usize = 0;
        #[verifier::loop_isolation(false)]
        while i < 8
            invariant
                i <= 8,
                cubes@.len() == i,
                forall|j: int| 0 <= j < i ==> (#[trigger] cubes@[j])@ == base_cube_v(
                    face,
                    material,
                ),
            decreases 8 - i,
        {
            let mut textures: Vec<u16> = Vec::new();
            let mut t: usize = 0;
            #[verifier::loop_isolation(false)]
            while t < 6
                invariant
                    t <= 6,
                    textures@.len() == t,
                    forall|j: int| 0 <= j < t ==> (#[trigger] textures@[j]) == 1u16,
                decreases 6 - t,
            {
                textures.push(1);
                t = t + 1;
            }
            let cube = Cube {
                children: none_children(),
                edge_face: EdgeFace::Face(three_faces(face)),
                textures,
                material,
                merged: 0,
                escaped_visible: EscapedVisible::Visible(0),
                cube_ext: None,
            };
            proof {
                lemma_children_view(cube.children@);
                assert(cube@.children =~= base_cube_v(face, material).children);
                assert(cube@.textures =~= base_cube_v(face, material).textures);
                assert(cube@ =~= base_cube_v(face, material));
            }
            cubes.push(cube);
            i = i + 1;
        }
        cubes
    }

    /// Consumes one face's surface data: the four header bytes, then
    /// the per-face and per-vertex blocks they select. Only the byte
    /// count matters, so the selected blocks are skipped.
    fn parse_surface_face(&mut self) -> (r: Result<(), DecodeError>)
        ensures
            final(self).only_cursor_moved(*old(self)),
            match r {
                Ok(_) => {
                    &&& old(self).pos() + 4 <= old(self).buf().len()
                    &&& final(self).pos() == old(self).pos() + 4 + crate::wire::face_extra(
                        old(self).buf()[old(self).pos() + 2],
                        old(self).buf()[old(self).pos() + 3],
                    )
                    &&& final(self).pos() <= old(self).buf().len()
                },
                Err(e) => {
                    &&& e == DecodeError::TruncatedSurface
                    &&& old(self).pos() + 4 + crate::wire::face_extra(
                        old(self).buf()[old(self).pos() + 2],
                        old(self).buf()[old(self).pos() + 3],
                    ) > old(self).buf().len()
                },
            },
    {
        // Two lightmap ids, the vertex mask, and the vertex count.
        let _lmid0 = match self.read_byte() {
            Ok(v) => v,
            Err(_) => {
                return Err(DecodeError::TruncatedSurface);
            },
        };
        let _lmid1 = match self.read_byte() {
            Ok(v) => v,
            Err(_) => {
                return Err(DecodeError::TruncatedSurface);
            },
        };
        let sv = match self.read_byte() {
            Ok(v) => v,
            Err(_) => {
                return Err(DecodeError::TruncatedSurface);
            },
        };
        let snv = match self.read_byte() {
            Ok(v) => v,
            Err(_) => {
                return Err(DecodeError::TruncatedSurface);
            },
        };
        // The amount the remaining header flags announce, mirroring
        // the flag logic of the on-disk format.
        proof {
            assert(snv & 15 < 16) by (bit_vector);
        }
        let layer_verts: u32 = (snv & 15) as u32;
        let mut extra: u32 = 0;
        if layer_verts != 0 {
            let has_xyz = sv & 0x04 != 0;
            let has_uv = sv & 0x40 != 0;
            let has_norm = sv & 0x80 != 0;
            let dup = snv & 0x80 != 0;
            let mut xyz_left = has_xyz;
            let mut uv_left = has_uv;
            let mut norm_left = has_norm;
            if layer_verts == 4 {
                if has_xyz && sv & 0x01 != 0 {
                    extra = extra + 8;
                    xyz_left = false;
                }
                if has_uv && sv & 0x02 != 0 {
                    extra = extra + if dup {
                        16
                    } else {
                        8
                    };
                    uv_left = false;
                }
            }
            if has_norm && sv & 0x08 != 0 {
                extra = extra + 2;
                norm_left = false;
            }
            if xyz_left || uv_left || norm_left {
                let per: u32 = (if xyz_left {
                    4
                } else {
                    0
                }) + (if uv_left {
                    4
                } else {
                    0
                }) + (if norm_left {
                    2
                } else {
                    0
                });
                proof {
                    assert(layer_verts * per <= 160) by (nonlinear_arith)
                        requires
                            layer_verts < 16,
                            per <= 10,
                    ;
                }
                extra = extra + layer_verts * per;
            }
            if dup {
                extra = extra + 2 * layer_verts;
            }
        }
        proof {
            assert(extra == crate::wire::face_extra(sv, snv));
        }
        match self.skip(extra as usize) {
            Ok(_) => Ok(()),
            Err(_) => Err(DecodeError::TruncatedSurface),
        }
    }

    /// Consumes a cube's whole surface/vertex block: the face mask and
    /// total vertex count, then each selected face's data. A read past
    /// the end of the stream is a truncated surface.
    fn parse_surface(&mut self) -> (r: Result<(), DecodeError>)
        ensures
            final(self).only_cursor_moved(*old(self)),
            match spec_surface(old(self).buf(), old(self).pos()) {
                Ok(u) => {
                    &&& r is Ok
                    &&& final(self).pos() == old(self).pos() + u
                    &&& final(self).pos() <= old(self).buf().len()
                },
                Err(e) => r matches Err(e2) && e2 == e,
            },
    {
        let ghost b = old(self).buf();
        let ghost p0 = old(self).pos();
        let surface_mask = match self.read_byte() {
            Ok(v) => v,
            Err(_) => {
                return Err(DecodeError::TruncatedSurface);
            },
        };
        let _total_verts = match self.read_byte() {
            Ok(v) => v,
            Err(_) => {
                return Err(DecodeError::TruncatedSurface);
            },
        };
        let ghost p2 = p0 + 2;
        let mut i: u8 = 0;
        #[verifier::loop_isolation(false)]
        while i < 6
            invariant
                i <= 6,
                self.only_cursor_moved(*old(self)),
                self.pos() >= p2,
                self.pos() <= b.len(),
                match spec_faces(b, self.pos(), surface_mask, i) {
                    Ok(fu) => spec_faces(b, p2, surface_mask, 0) == Ok::<nat, DecodeError>(
                        (((self.pos() - p2) + fu)) as nat,
                    ),
                    Err(e) => spec_faces(b, p2, surface_mask, 0) == Err::<nat, _>(e),
                },
            decreases 6 - i,
        {
            if surface_mask & (1u8 << i) != 0 {
                let ghost pos_before = self.pos();
                match self.parse_surface_face() {
                    Ok(_) => {},
                    Err(e) => {
                        return Err(e);
                    },
                }
            }
            i = i + 1;
        }
        Ok(())
    }

    /// Decodes one cube record into `cube`: the save byte's low three
    /// bits pick the geometry (0 recurses into children, 1 empty, 2
    /// solid, 3 explicit edges, 4 a leaf that also recurses), its high
    /// bits select the material, merge and surface sections. A low
    /// value above 4 sets `failed`, which stops the enclosing descent,
    /// and returns the cube as it stands. `co` and `size` carry the
    /// cube's origin and half-extent through the recursion; they do
    /// not influence the bytes read.
    pub fn parse_cube(&mut self, cube: Cube, co: &Vector3<i32>, size: u32, failed: &mut bool) -> (r:
        Result<Cube, DecodeError>)
        requires
            *old(failed) == false,
        ensures
            final(self).buf() == old(self).buf(),
            final(self).names() == old(self).names(),
            match spec_cube(old(self).buf(), old(self).pos(), cube@) {
                Ok(out) => {
                    &&& r matches Ok(c) && c@ == out.cube
                    &&& final(self).pos() == old(self).pos() + out.used
                    &&& *final(failed) == out.failed
                    &&& final(self).cube_count == sat_add64(old(self).cube_count, out.calls)
                },
                Err(e) => r matches Err(e2) && e2 == e,
            },
        decreases old(self).buf().len() - old(self).pos(), 0int,
    {
        let ghost b = old(self).buf();
        let ghost p0 = old(self).pos();
        let ghost base = cube@;
        let mut cube = cube;
        let oct_sav = self.read_byte()?;
        let kind = oct_sav & 0x7;
        if kind == 0 {
            let kids = self.parse_children(co, #[verifier::truncate] (size as i32) >> 1, failed)?;
            cube.children = kids;
            proof {
                let out = spec_cube(b, p0, base)->Ok_0;
                assert(cube@ =~= out.cube);
            }
            return Ok(cube);
        }
        if kind > 4 {
            *failed = true;
            proof {
                let out = spec_cube(b, p0, base)->Ok_0;
                assert(cube@ =~= out.cube);
            }
            return Ok(cube);
        }
        if kind == 1 {
            cube.edge_face = EdgeFace::Face(three_faces(0x0000_0000));
        } else if kind == 2 {
            cube.edge_face = EdgeFace::Face(three_faces(0x8080_8080));
        } else if kind == 3 {
            let edges = self.parse_to_string(12)?;
            cube.edge_face = EdgeFace::Edge(edges);
        }
        let mut textures: Vec<u16> = Vec::new();
        let ghost q1 = self.pos();
        let mut t: usize = 0;
        #[verifier::loop_isolation(false)]
        while t < 6
            invariant
                t <= 6,
                self.only_cursor_moved(*old(self)),
                self.pos() == q1 + 2 * t,
                q1 + 2 * (t as int) <= b.len(),
                textures@.len() == t,
                forall|j: int|
                    0 <= j < t ==> (#[trigger] textures@[j]) == crate::bytes::u16_at(
                        b,
                        q1 + 2 * j,
                    ),
            decreases 6 - t,
        {
            let w = match self.parse_to_u16() {
                Ok(w) => w,
                Err(e) => {
                    return Err(e);
                },
            };
            textures.push(w);
            t = t + 1;
        }
        proof {
            assert(textures@ =~= Seq::new(6, |j: int| crate::bytes::u16_at(b, q1 + 2 * j)));
        }
        cube.textures = textures;
        if oct_sav & 0x40 != 0 {
            cube.material = self.parse_to_u16()?;
        }
        if oct_sav & 0x80 != 0 {
            cube.merged = self.read_byte()?;
        }
        if oct_sav & 0x20 != 0 {
            self.parse_surface()?;
        }
        if kind == 4 {
            let kids = self.parse_children(co, #[verifier::truncate] (size as i32) >> 1, failed)?;
            cube.children = kids;
        } else {
            cube.children = none_children();
            proof {
                lemma_children_view(cube.children@);
                assert(children_view(cube.children@) =~= Seq::new(8, |j: int| None));
            }
        }
        proof {
            let out = spec_cube(b, p0, base)->Ok_0;
            assert(cube@ =~= out.cube);
        }
        Ok(cube)
    }

    /// Decodes the eight sibling cubes of one children block, each
    /// from a freshly initialised cube. A soft failure below keeps the
    /// failing child and leaves its remaining siblings absent. `co`
    /// and `size` carry the block's origin and the children's extent;
    /// they do not influence the bytes read.
    pub fn parse_children(&mut self, co: &Vector3<i32>, size: i32, failed: &mut bool) -> (r:
        Result<Vec<Option<Box<Cube>>>, DecodeError>)
        requires
            *old(failed) == false,
        ensures
            final(self).buf() == old(self).buf(),
            final(self).names() == old(self).names(),
            match spec_children(old(self).buf(), old(self).pos(), 0) {
                Ok(out) => {
                    &&& r matches Ok(kids) && children_view(kids@) == out.kids && kids@.len()
                        == 8
                    &&& final(self).pos() == old(self).pos() + out.used
                    &&& *final(failed) == out.failed
                    &&& final(self).cube_count == sat_add64(old(self).cube_count, out.calls)
                },
                Err(e) => r matches Err(e2) && e2 == e,
            },
        decreases old(self).buf().len() - old(self).pos(), 1int,
    {
        let ghost b = old(self).buf();
        let ghost p0 = old(self).pos();
        let child_size: u32 = if size < 0 {
            0
        } else {
            size as u32
        };
        let mut bases = Parser::new_cubes(None, None);
        let mut parsed = none_children();
        let ghost mut calls_so_far: nat = 0nat;
        let mut i: usize = 0;
        proof {
            assert(children_view(parsed@.subrange(0, 0)) =~= Seq::<Option<CubeV>>::empty());
            match spec_children(b, p0, 0) {
                Ok(rest) => {
                    assert(Seq::<Option<CubeV>>::empty() + rest.kids =~= rest.kids);
                },
                Err(_) => {},
            }
        }
        #[verifier::loop_isolation(false)]
        while i < 8 && !*failed
            invariant
                i <= 8,
                bases@.len() == 8 - i,
                forall|j: int|
                    0 <= j < bases@.len() ==> (#[trigger] bases@[j])@ == base_cube_v(0, 0),
                parsed@.len() == 8,
                forall|j: int| i <= j < 8 ==> (#[trigger] parsed@[j]) is None,
                self.buf() == b,
                self.names() == old(self).names(),
                self.pos() >= p0,
                i == 0 ==> self.pos() == p0,
                i > 0 ==> p0 < self.pos() <= b.len(),
                self.cube_count == sat_add64(old(self).cube_count, calls_so_far),
                !*failed ==> kids_loop_inv(
                    b,
                    p0,
                    self.pos(),
                    i as int,
                    children_view(parsed@.subrange(0, i as int)),
                    calls_so_far,
                    false,
                ),
                *failed ==> kids_loop_inv(
                    b,
                    p0,
                    self.pos(),
                    i as int,
                    children_view(parsed@),
                    calls_so_far,
                    true,
                ),
            decreases 8 - i,
        {
            let ghost pos_before = self.pos();
            let ghost parsed_before = parsed@;
            let ghost prefix_before = children_view(parsed@.subrange(0, i as int));
            let base = bases.remove(0);
            if self.cube_count < u64::MAX {
                self.cube_count = self.cube_count + 1;
            }
            proof {
                assert(self.cube_count == sat_add64(
                    sat_add64(old(self).cube_count, calls_so_far),
                    1nat,
                ));
            }
            let c = match self.parse_cube(base, co, child_size, failed) {
                Ok(c) => c,
                Err(e) => {
                    return Err(e);
                },
            };
            let ghost co_out = spec_cube(b, pos_before, base_cube_v(0, 0))->Ok_0;
            proof {
                lemma_kids_step(b, p0, pos_before, i as int, prefix_before, calls_so_far, co_out);
                lemma_sat_add64_assoc(old(self).cube_count, calls_so_far, 1nat);
                lemma_sat_add64_assoc(
                    old(self).cube_count,
                    (calls_so_far + 1) as nat,
                    co_out.calls,
                );
                calls_so_far = (calls_so_far + 1 + co_out.calls) as nat;
            }
            parsed[i] = Some(Box::new(c));
            proof {
                lemma_children_view(parsed_before.subrange(0, i as int));
                lemma_children_view(parsed@.subrange(0, i as int + 1));
                assert(children_view(parsed@.subrange(0, i as int + 1)) =~= prefix_before.push(
                    Some(co_out.cube),
                ));
                if co_out.failed {
                    lemma_children_view(parsed@);
                    assert(children_view(parsed@) =~= prefix_before.push(Some(co_out.cube))
                        + Seq::new((7 - i) as nat, |j: int| None));
                }
            }
            i = i + 1;
        }
        proof {
            if !*failed {
                assert(parsed@.subrange(0, 8) =~= parsed@);
            }
        }
        Ok(parsed)
    }
}

} // verus!
