use vstd::prelude::*;

use crate::cursor::Parser;
use crate::error::DecodeError;
use crate::gzip::{gunzip, gunzip_of};
use crate::model::{VariableV, GameMapV};
use crate::types::{Entity, GameMap, Variable, VSlot, Vector3};
use crate::wire::{sat_add64, spec_entities, spec_map, spec_variables};

verus! {

impl Parser {
    /// Decodes `number_vars` game-variable records.
    fn parse_variables(&mut self, number_vars: u32) -> (r: Result<Vec<Variable>, DecodeError>)
        ensures
            final(self).only_cursor_moved(*old(self)),
            match spec_variables(old(self).buf(), old(self).pos(), number_vars as nat) {
                Ok((vs, u)) => {
                    &&& r matches Ok(out) && out@.map_values(|v: Variable| v@) == vs
                    &&& final(self).pos() == old(self).pos() + u
                },
                Err(e) => r matches Err(e2) && e2 == e,
            },
    {
        let ghost b = old(self).buf();
        let ghost p0 = old(self).pos();
        let mut vars: Vec<Variable> = Vec::new();
        let mut i: u32 = 0;
        proof {
            assert(vars@.map_values(|v: Variable| v@) =~= Seq::<VariableV>::empty());
            match spec_variables(b, p0, number_vars as nat) {
                Ok((vs, u)) => {
                    assert(Seq::<VariableV>::empty() + vs =~= vs);
                },
                Err(_) => {},
            }
        }
        #[verifier::loop_isolation(false)]
        while i < number_vars
            invariant
                i <= number_vars,
                self.only_cursor_moved(*old(self)),
                self.pos() >= p0,
                match spec_variables(b, self.pos(), (number_vars - i) as nat) {
                    Ok((rest, ru)) => spec_variables(b, p0, number_vars as nat) == Ok::<
                        _,
                        DecodeError,
                    >(
                        (
                            vars@.map_values(|v: Variable| v@) + rest,
                            ((self.pos() - p0) + ru) as nat,
                        ),
                    ),
                    Err(e) => spec_variables(b, p0, number_vars as nat) == Err::<
                        (Seq<VariableV>, nat),
                        _,
                    >(e),
                },
            decreases number_vars - i,
        {
            let ghost views_before = vars@.map_values(|v: Variable| v@);
            let variable = match self.parse_variable() {
                Ok(v) => v,
                Err(e) => {
                    return Err(e);
                },
            };
            proof {
                assert(vars@.push(variable).map_values(|v: Variable| v@) =~= views_before.push(
                    variable@,
                ));
                match spec_variables(b, self.pos(), (number_vars - i - 1) as nat) {
                    Ok((rest, ru)) => {
                        assert(views_before.push(variable@) + rest =~= views_before + (seq![
                            variable@,
                        ] + rest));
                    },
                    Err(_) => {},
                }
            }
            vars.push(variable);
            i = i + 1;
        }
        proof {
            let s = vars@.map_values(|v: Variable| v@);
            assert(s + Seq::<VariableV>::empty() =~= s);
        }
        Ok(vars)
    }

    /// Decodes `number_ents` entity records.
    fn parse_entities(&mut self, number_ents: u32) -> (r: Result<Vec<Entity>, DecodeError>)
        ensures
            final(self).only_cursor_moved(*old(self)),
            match spec_entities(old(self).buf(), old(self).pos(), number_ents as nat) {
                Ok((es, u)) => {
                    &&& r matches Ok(out) && out@ == es
                    &&& final(self).pos() == old(self).pos() + u
                },
                Err(e) => r matches Err(e2) && e2 == e,
            },
    {
        let ghost b = old(self).buf();
        let ghost p0 = old(self).pos();
        let mut entities: Vec<Entity> = Vec::new();
        let mut i: u32 = 0;
        proof {
            match spec_entities(b, p0, number_ents as nat) {
                Ok((es, u)) => {
                    assert(Seq::<Entity>::empty() + es =~= es);
                },
                Err(_) => {},
            }
        }
        #[verifier::loop_isolation(false)]
        while i < number_ents
            invariant
                i <= number_ents,
                self.only_cursor_moved(*old(self)),
                self.pos() >= p0,
                match spec_entities(b, self.pos(), (number_ents - i) as nat) {
                    Ok((rest, ru)) => spec_entities(b, p0, number_ents as nat) == Ok::<
                        _,
                        DecodeError,
                    >((entities@ + rest, ((self.pos() - p0) + ru) as nat)),
                    Err(e) => spec_entities(b, p0, number_ents as nat) == Err::<
                        (Seq<Entity>, nat),
                        _,
                    >(e),
                },
            decreases number_ents - i,
        {
            let ghost views_before = entities@;
            let entity = match self.parse_entity() {
                Ok(e) => e,
                Err(e) => {
                    return Err(e);
                },
            };
            proof {
                match spec_entities(b, self.pos(), (number_ents - i - 1) as nat) {
                    Ok((rest, ru)) => {
                        assert(views_before.push(entity) + rest =~= views_before + (seq![entity]
                            + rest));
                    },
                    Err(_) => {},
                }
            }
            entities.push(entity);
            i = i + 1;
        }
        proof {
            assert(entities@ + Seq::<Entity>::empty() =~= entities@);
        }
        Ok(entities)
    }

    /// Decodes a whole map stream from the cursor onward: the header,
    /// the game-variable overrides, the game identifier with its four
    /// reserved bytes, the texture most-recently-used list, the
    /// entities, the delta-encoded vslot table, and the eight root
    /// cubes of the octree. On success the cursor stands exactly at
    /// the end of the last decoded section.
    pub fn parse_map(&mut self) -> (r: Result<GameMap, DecodeError>)
        ensures
            final(self).buf() == old(self).buf(),
            old(self).names_wf() ==> final(self).names_wf(),
            match spec_map(old(self).buf(), old(self).pos()) {
                Ok((m, u, calls)) => {
                    &&& r matches Ok(gm) && gm@ == m
                    &&& final(self).pos() == old(self).pos() + u
                    &&& final(self).cube_count == sat_add64(old(self).cube_count, calls)
                },
                Err(e) => r matches Err(e2) && e2 == e,
            },
    {
        let ghost b = old(self).buf();
        let ghost p0 = old(self).pos();
        let header = self.parse_header()?;
        let vars = self.parse_variables(header.number_vars)?;
        let game_ident = self.parse_game_ident()?;
        self.read_byte()?;
        self.read_byte()?;
        self.read_byte()?;
        self.read_byte()?;
        let texture_mru = self.parse_texture_mru()?;
        let entities = self.parse_entities(header.number_ents)?;
        let vslots = self.parse_vslots(header.number_vslots)?;
        let mut octree_failed = false;
        let map = self.parse_children(
            &Vector3::<i32> { x: 0, y: 0, z: 0 },
            #[verifier::truncate] (header.world_size as i32) >> 1,
            &mut octree_failed,
        )?;
        let game_map = GameMap { header, vars, game_ident, texture_mru, entities, vslots, map };
        proof {
            match spec_map(b, p0) {
                Ok((m, u, calls)) => {
                    assert(game_map@.vslots =~= m.vslots);
                    assert(game_map@ =~= m);
                },
                Err(_) => {},
            }
        }
        Ok(game_map)
    }
}

/// Decodes a gzip-packed map file image into a map: inflates the
/// archive and decodes the payload, yielding nothing when either the
/// archive or the payload is malformed.
pub fn parse_map(compressed: &Vec<u8>) -> (r: Option<GameMap>)
    ensures
        match gunzip_of(compressed@) {
            Some(bytes) => match spec_map(bytes, 0) {
                Ok((m, u, calls)) => r matches Some(gm) && gm@ == m,
                Err(_) => r is None,
            },
            None => r is None,
        },
{
    match gunzip(compressed) {
        Some(bytes) => {
            let mut parser = Parser::new(bytes);
            match parser.parse_map() {
                Ok(m) => Some(m),
                Err(_) => None,
            }
        },
        None => None,
    }
}

} // verus!
