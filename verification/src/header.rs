use vstd::prelude::*;

use crate::bytes::{u16_at, SUPPORTED_VERSION};
use crate::cursor::Parser;
use crate::error::DecodeError;
use crate::types::{Entity, EntityType, MapHeader, Position, Variable, VariableType};
use crate::wire::{spec_entity, spec_game_ident, spec_header, spec_texture_mru, spec_variable};

verus! {

impl Parser {
    /// Decodes the fixed ten-field map header, rejecting a stream
    /// whose magic is not "OCTA" or whose format revision is not the
    /// supported one.
    pub fn parse_header(&mut self) -> (r: Result<MapHeader, DecodeError>)
        ensures
            final(self).only_cursor_moved(*old(self)),
            match spec_header(old(self).buf(), old(self).pos()) {
                Ok((h, u)) => {
                    &&& r matches Ok(hdr) && hdr@ == h
                    &&& final(self).pos() == old(self).pos() + u
                },
                Err(e) => r matches Err(e2) && e2 == e,
            },
    {
        let magic_field = self.parse_to_string(4)?;
        if !(magic_field[0] == 0x4F && magic_field[1] == 0x43 && magic_field[2] == 0x54
            && magic_field[3] == 0x41) {
            proof {
                assert(magic_field@ != crate::bytes::octa_magic());
            }
            return Err(DecodeError::BadMagic);
        }
        proof {
            assert(magic_field@ =~= crate::bytes::octa_magic());
        }
        let version = self.parse_to_u32()?;
        if version != SUPPORTED_VERSION {
            return Err(DecodeError::UnsupportedVersion);
        }
        let header_size = self.parse_to_u32()?;
        let world_size = self.parse_to_u32()?;
        let number_ents = self.parse_to_u32()?;
        let number_pvs = self.parse_to_u32()?;
        let number_lightmaps = self.parse_to_u32()?;
        let blend_map = self.parse_to_u32()?;
        let number_vars = self.parse_to_u32()?;
        let number_vslots = self.parse_to_u32()?;
        let hdr = MapHeader {
            magic_field,
            version,
            header_size,
            world_size,
            number_ents,
            number_pvs,
            number_lightmaps,
            blend_map,
            number_vars,
            number_vslots,
        };
        proof {
            let (h, u) = spec_header(old(self).buf(), old(self).pos())->Ok_0;
            assert(hdr@ =~= h);
        }
        Ok(hdr)
    }

    /// Decodes one game-variable record: a type byte in {0, 1, 2}, a
    /// length-prefixed name, and the body the type byte selects.
    pub fn parse_variable(&mut self) -> (r: Result<Variable, DecodeError>)
        ensures
            final(self).only_cursor_moved(*old(self)),
            match spec_variable(old(self).buf(), old(self).pos()) {
                Ok((v, u)) => {
                    &&& r matches Ok(var) && var@ == v
                    &&& final(self).pos() == old(self).pos() + u
                },
                Err(e) => r matches Err(e2) && e2 == e,
            },
    {
        let var_type_byte = self.read_byte()?;
        let name_len = self.parse_to_u16()?;
        let name = self.parse_to_string(name_len)?;
        let var_type = match var_type_byte {
            0 => VariableType::Int(self.parse_to_u32()?),
            1 => VariableType::Float(self.parse_to_f32_bits()?),
            2 => {
                let str_len = self.parse_to_u16()?;
                let text = self.parse_to_string(str_len)?;
                VariableType::String(str_len, text)
            },
            other => {
                return Err(DecodeError::UnknownVariableType(other));
            },
        };
        let var = Variable { var_type, name_len, name };
        proof {
            let (v, u) = spec_variable(old(self).buf(), old(self).pos())->Ok_0;
            assert(var@ =~= v);
        }
        Ok(var)
    }

    /// Decodes the game identifier: a length byte, that many bytes of
    /// raw text, and a trailing byte that is consumed and discarded.
    pub fn parse_game_ident(&mut self) -> (r: Result<Vec<u8>, DecodeError>)
        ensures
            final(self).only_cursor_moved(*old(self)),
            match spec_game_ident(old(self).buf(), old(self).pos()) {
                Ok((s, u)) => {
                    &&& r matches Ok(ident) && ident@ == s
                    &&& final(self).pos() == old(self).pos() + u
                },
                Err(e) => r matches Err(e2) && e2 == e,
            },
    {
        let str_len = self.read_byte()?;
        let text = self.parse_to_string(str_len as u16)?;
        self.read_byte()?;
        Ok(text)
    }

    /// Decodes the texture most-recently-used list: a 16-bit count and
    /// that many 16-bit texture slot indices.
    pub fn parse_texture_mru(&mut self) -> (r: Result<Vec<u16>, DecodeError>)
        ensures
            final(self).only_cursor_moved(*old(self)),
            match spec_texture_mru(old(self).buf(), old(self).pos()) {
                Ok((s, u)) => {
                    &&& r matches Ok(mru) && mru@ == s
                    &&& final(self).pos() == old(self).pos() + u
                },
                Err(e) => r matches Err(e2) && e2 == e,
            },
    {
        let count = self.parse_to_u16()?;
        let mut texture_mru: Vec<u16> = Vec::new();
        let mut i: u16 = 0;
        #[verifier::loop_isolation(false)]
        while i < count
            invariant
                i <= count,
                old(self).pos() + 2 + 2 * (i as int) <= old(self).buf().len(),
                self.only_cursor_moved(*old(self)),
                self.pos() == old(self).pos() + 2 + 2 * i,
                texture_mru@.len() == i as int,
                forall|j: int|
                    0 <= j < i as int ==> texture_mru@[j] == u16_at(
                        old(self).buf(),
                        old(self).pos() + 2 + 2 * j,
                    ),
            decreases count - i,
        {
            let t = match self.parse_to_u16() {
                Ok(t) => t,
                Err(e) => {
                    return Err(e);
                },
            };
            texture_mru.push(t);
            i = i + 1;
        }
        proof {
            let (s, u) = spec_texture_mru(old(self).buf(), old(self).pos())->Ok_0;
            assert(texture_mru@ =~= s);
        }
        Ok(texture_mru)
    }

    /// Decodes one fixed-size entity record: a float position, five
    /// 16-bit attributes, a kind byte that must name one of the 32
    /// entity kinds, and a reserved byte that is discarded.
    pub fn parse_entity(&mut self) -> (r: Result<Entity, DecodeError>)
        ensures
            final(self).only_cursor_moved(*old(self)),
            match spec_entity(old(self).buf(), old(self).pos()) {
                Ok((e, u)) => {
                    &&& r matches Ok(ent) && ent == e
                    &&& final(self).pos() == old(self).pos() + u
                },
                Err(e) => r matches Err(e2) && e2 == e,
            },
    {
        let x = self.parse_to_f32_bits()?;
        let y = self.parse_to_f32_bits()?;
        let z = self.parse_to_f32_bits()?;
        let attr1 = self.parse_to_u16()?;
        let attr2 = self.parse_to_u16()?;
        let attr3 = self.parse_to_u16()?;
        let attr4 = self.parse_to_u16()?;
        let attr5 = self.parse_to_u16()?;
        let ent_type = match self.read_byte()? {
            0 => EntityType::Empty,
            1 => EntityType::Light,
            2 => EntityType::MapModel,
            3 => EntityType::PlayerStart,
            4 => EntityType::EnvMap,
            5 => EntityType::Particles,
            6 => EntityType::Sound,
            7 => EntityType::Spotlight,
            8 => EntityType::IHealth,
            9 => EntityType::IAmmo,
            10 => EntityType::RaceStart,
            11 => EntityType::RaceFinish,
            12 => EntityType::RaceCheckpoint,
            13 => EntityType::PH4,
            14 => EntityType::PH5,
            15 => EntityType::PH6,
            16 => EntityType::PH7,
            17 => EntityType::PH8,
            18 => EntityType::PH9,
            19 => EntityType::Teleport,
            20 => EntityType::TeleDest,
            21 => EntityType::PH10,
            22 => EntityType::PH11,
            23 => EntityType::JumpPad,
            24 => EntityType::Base,
            25 => EntityType::PH12,
            26 => EntityType::PH13,
            27 => EntityType::PH14,
            28 => EntityType::PH15,
            29 => EntityType::PH16,
            30 => EntityType::Flag,
            31 => EntityType::MaxEntTypes,
            other => {
                return Err(DecodeError::UnknownEntityKind(other));
            },
        };
        self.read_byte()?;
        Ok(
            Entity {
                position: Position { x, y, z },
                attr1,
                attr2,
                attr3,
                attr4,
                attr5,
                ent_type,
            },
        )
    }
}

} // verus!
