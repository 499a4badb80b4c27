use vstd::prelude::*;

use crate::cursor::Parser;
use crate::error::DecodeError;
use crate::model::LightMapV;
use crate::types::LightMap;
use crate::wire::{spec_lightmap, spec_lightmaps, spec_pvs};

verus! {

impl Parser {
    /// Decodes one lightmap record: a type byte whose low bits give
    /// the kind and whose top bit announces unlit coordinates, then a
    /// 512-by-512 pixel block whose byte depth the kind selects.
    fn parse_lightmap(&mut self) -> (r: Result<LightMap, DecodeError>)
        ensures
            final(self).only_cursor_moved(*old(self)),
            match spec_lightmap(old(self).buf(), old(self).pos()) {
                Ok((lm, u)) => {
                    &&& r matches Ok(out) && out@ == lm
                    &&& final(self).pos() == old(self).pos() + u
                },
                Err(e) => r matches Err(e2) && e2 == e,
            },
    {
        let mut lightmap = LightMap::new();
        let map_type = self.read_byte()?;
        lightmap.map_type = (map_type & 0x7F) as i32;
        lightmap.unlit_x = 0;
        lightmap.unlit_y = 0;
        if map_type & 0x80 != 0 {
            lightmap.unlit_x = self.parse_to_u16()? as i32;
            lightmap.unlit_y = self.parse_to_u16()? as i32;
        }
        if lightmap.map_type & 16 != 0 && lightmap.map_type & 15 != 2 {
            lightmap.bpp = 4;
        }
        let data_len: usize = (lightmap.bpp as usize) * 512 * 512;
        lightmap.data = self.read_blob(data_len)?;
        proof {
            match spec_lightmap(old(self).buf(), old(self).pos()) {
                Ok((lm, u)) => {
                    assert(lightmap@ =~= lm);
                },
                Err(_) => {},
            }
        }
        Ok(lightmap)
    }

    /// Decodes `lightmap_count` lightmap records.
    pub fn parse_lightmaps(&mut self, lightmap_count: u32) -> (r: Result<
        Vec<LightMap>,
        DecodeError,
    >)
        ensures
            final(self).only_cursor_moved(*old(self)),
            match spec_lightmaps(old(self).buf(), old(self).pos(), lightmap_count as nat) {
                Ok((ls, u)) => {
                    &&& r matches Ok(out) && out@.map_values(|l: LightMap| l@) == ls
                    &&& final(self).pos() == old(self).pos() + u
                },
                Err(e) => r matches Err(e2) && e2 == e,
            },
    {
        let ghost b = old(self).buf();
        let ghost p0 = old(self).pos();
        let mut lightmaps: Vec<LightMap> = Vec::new();
        let mut i: u32 = 0;
        proof {
            assert(lightmaps@.map_values(|l: LightMap| l@) =~= Seq::<LightMapV>::empty());
            match spec_lightmaps(b, p0, lightmap_count as nat) {
                Ok((ls, u)) => {
                    assert(Seq::<LightMapV>::empty() + ls =~= ls);
                },
                Err(_) => {},
            }
        }
        #[verifier::loop_isolation(false)]
        while i < lightmap_count
            invariant
                i <= lightmap_count,
                self.only_cursor_moved(*old(self)),
                self.pos() >= p0,
                match spec_lightmaps(b, self.pos(), (lightmap_count - i) as nat) {
                    Ok((rest, ru)) => spec_lightmaps(b, p0, lightmap_count as nat) == Ok::<
                        _,
                        DecodeError,
                    >(
                        (
                            lightmaps@.map_values(|l: LightMap| l@) + rest,
                            ((self.pos() - p0) + ru) as nat,
                        ),
                    ),
                    Err(e) => spec_lightmaps(b, p0, lightmap_count as nat) == Err::<
                        (Seq<LightMapV>, nat),
                        _,
                    >(e),
                },
            decreases lightmap_count - i,
        {
            let ghost views_before = lightmaps@.map_values(|l: LightMap| l@);
            let ghost pos_before = self.pos();
            let lm = match self.parse_lightmap() {
                Ok(lm) => lm,
                Err(e) => {
                    return Err(e);
                },
            };
            proof {
                assert(lightmaps@.push(lm).map_values(|l: LightMap| l@) =~= views_before.push(
                    lm@,
                ));
                match spec_lightmaps(b, self.pos(), (lightmap_count - i - 1) as nat) {
                    Ok((rest, ru)) => {
                        assert(views_before.push(lm@) + rest =~= views_before + (seq![lm@]
                            + rest));
                    },
                    Err(_) => {},
                }
            }
            lightmaps.push(lm);
            i = i + 1;
        }
        proof {
            let s = lightmaps@.map_values(|l: LightMap| l@);
            assert(s + Seq::<LightMapV>::empty() =~= s);
        }
        Ok(lightmaps)
    }

    /// Consumes the PVS section: a length word whose top bit announces
    /// a water plane table (a count and that many heights), then one
    /// 16-bit length per visibility cluster. The contents beyond the
    /// headers are not interpreted.
    pub fn parse_pvs(&mut self, pvs_count: u32) -> (r: Result<(), DecodeError>)
        ensures
            final(self).only_cursor_moved(*old(self)),
            match spec_pvs(old(self).buf(), old(self).pos(), pvs_count as nat) {
                Ok(u) => r is Ok && final(self).pos() == old(self).pos() + u,
                Err(e) => r matches Err(e2) && e2 == e,
            },
    {
        let ghost b = old(self).buf();
        let ghost p0 = old(self).pos();
        let total_len = self.parse_to_u32()?;
        if total_len & 0x8000_0000u32 != 0 {
            let num_water_planes = self.parse_to_u32()?;
            let mut w: u32 = 0;
            #[verifier::loop_isolation(false)]
            while w < num_water_planes
                invariant
                    w <= num_water_planes,
                    self.only_cursor_moved(*old(self)),
                    self.pos() == p0 + 8 + 4 * w,
                    p0 + 8 + 4 * (w as int) <= b.len(),
                decreases num_water_planes - w,
            {
                let height = match self.parse_to_i32() {
                    Ok(h) => h,
                    Err(e) => {
                        return Err(e);
                    },
                };
                let _ = height;
                w = w + 1;
            }
        }
        let ghost q = self.pos();
        let mut c: u32 = 0;
        #[verifier::loop_isolation(false)]
        while c < pvs_count
            invariant
                c <= pvs_count,
                self.only_cursor_moved(*old(self)),
                self.pos() == q + 2 * c,
                q + 2 * (c as int) <= b.len(),
            decreases pvs_count - c,
        {
            let len = match self.parse_to_u16() {
                Ok(l) => l,
                Err(e) => {
                    return Err(e);
                },
            };
            let _ = len;
            c = c + 1;
        }
        Ok(())
    }
}

} // verus!
