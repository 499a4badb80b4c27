use vstd::prelude::*;

use crate::bytes::{i32_at, le16_at, le32_at, u16_at, u32_at};
use crate::error::DecodeError;

verus! {

/// A sequential, bounds-checked reader over an owned byte buffer.
///
/// `position` only ever moves forward. Reading past the end of
/// `input` is reported as `DecodeError::EndOfInput` instead of
/// advancing. `cube_count` counts the octree nodes the parser has
/// attempted (saturating at the counter's maximum), and
/// `shader_param_names` interns shader parameter names so that
/// identical names share storage.
pub struct Parser {
    pub input: Vec<u8>,
    pub position: usize,
    pub cube_count: u64,
    pub shader_param_names: Vec<Vec<u8>>,
}

impl Parser {
    /// The byte stream being decoded.
    pub open spec fn buf(self) -> Seq<u8> {
        self.input@
    }

    /// The cursor position, as a mathematical integer.
    pub open spec fn pos(self) -> int {
        self.position as int
    }

    /// The interned shader parameter names.
    pub open spec fn names(self) -> Seq<Seq<u8>> {
        self.shader_param_names@.map_values(|v: Vec<u8>| v@)
    }

    /// The intern table holds no duplicate name.
    pub open spec fn names_wf(self) -> bool {
        forall|i: int, j: int|
            0 <= i < j < self.names().len() ==> self.names()[i] != self.names()[j]
    }

    /// Everything but the cursor position is as it was in `other`.
    pub open spec fn only_cursor_moved(self, other: Parser) -> bool {
        &&& self.buf() == other.buf()
        &&& self.cube_count == other.cube_count
        &&& self.names() == other.names()
    }

    pub fn new(input: Vec<u8>) -> (r: Parser)
        ensures
            r.buf() == input@,
            r.pos() == 0,
            r.cube_count == 0,
            r.names() == Seq::<Seq<u8>>::empty(),
            r.names_wf(),
    {
        Parser { input, position: 0, cube_count: 0, shader_param_names: Vec::new() }
    }

    /// Reads the byte under the cursor and moves past it.
    pub fn read_byte(&mut self) -> (r: Result<u8, DecodeError>)
        ensures
            final(self).only_cursor_moved(*old(self)),
            match r {
                Ok(b) => {
                    &&& old(self).pos() + 1 <= old(self).buf().len()
                    &&& b == old(self).buf()[old(self).pos()]
                    &&& final(self).pos() == old(self).pos() + 1
                },
                Err(e) => {
                    &&& e == DecodeError::EndOfInput
                    &&& old(self).pos() + 1 > old(self).buf().len()
                    &&& final(self).pos() == old(self).pos()
                },
            },
    {
        if self.position < self.input.len() {
            let b = self.input[self.position];
            self.position = self.position + 1;
            Ok(b)
        } else {
            Err(DecodeError::EndOfInput)
        }
    }

    /// Advances the cursor over `n` bytes without interpreting them.
    pub fn skip(&mut self, n: usize) -> (r: Result<(), DecodeError>)
        ensures
            final(self).only_cursor_moved(*old(self)),
            match r {
                Ok(_) => {
                    &&& old(self).pos() + n <= old(self).buf().len()
                    &&& final(self).pos() == old(self).pos() + n
                },
                Err(e) => {
                    &&& e == DecodeError::EndOfInput
                    &&& old(self).pos() + n > old(self).buf().len()
                    &&& final(self).pos() == old(self).pos()
                },
            },
    {
        if self.position <= self.input.len() && n <= self.input.len() - self.position {
            self.position = self.position + n;
            Ok(())
        } else {
            Err(DecodeError::EndOfInput)
        }
    }

    /// Reads a little-endian unsigned 16-bit value.
    pub fn parse_to_u16(&mut self) -> (r: Result<u16, DecodeError>)
        ensures
            final(self).only_cursor_moved(*old(self)),
            match r {
                Ok(v) => {
                    &&& old(self).pos() + 2 <= old(self).buf().len()
                    &&& v == u16_at(old(self).buf(), old(self).pos())
                    &&& final(self).pos() == old(self).pos() + 2
                },
                Err(e) => {
                    &&& e == DecodeError::EndOfInput
                    &&& old(self).pos() + 2 > old(self).buf().len()
                },
            },
    {
        let b0 = self.read_byte()?;
        let b1 = self.read_byte()?;
        let v: u16 = b0 as u16 + (b1 as u16) * 0x100;
        proof {
            assert(v == le16_at(old(self).buf(), old(self).pos()));
        }
        Ok(v)
    }

    /// Reads a little-endian unsigned 32-bit value.
    pub fn parse_to_u32(&mut self) -> (r: Result<u32, DecodeError>)
        ensures
            final(self).only_cursor_moved(*old(self)),
            match r {
                Ok(v) => {
                    &&& old(self).pos() + 4 <= old(self).buf().len()
                    &&& v == u32_at(old(self).buf(), old(self).pos())
                    &&& final(self).pos() == old(self).pos() + 4
                },
                Err(e) => {
                    &&& e == DecodeError::EndOfInput
                    &&& old(self).pos() + 4 > old(self).buf().len()
                },
            },
    {
        let b0 = self.read_byte()?;
        let b1 = self.read_byte()?;
        let b2 = self.read_byte()?;
        let b3 = self.read_byte()?;
        let v: u32 = b0 as u32 + (b1 as u32) * 0x100 + (b2 as u32) * 0x1_0000 + (b3
            as u32) * 0x100_0000;
        proof {
            assert(v == le32_at(old(self).buf(), old(self).pos()));
        }
        Ok(v)
    }

    /// Reads a little-endian signed (two's complement) 32-bit value.
    pub fn parse_to_i32(&mut self) -> (r: Result<i32, DecodeError>)
        ensures
            final(self).only_cursor_moved(*old(self)),
            match r {
                Ok(v) => {
                    &&& old(self).pos() + 4 <= old(self).buf().len()
                    &&& v == i32_at(old(self).buf(), old(self).pos())
                    &&& final(self).pos() == old(self).pos() + 4
                },
                Err(e) => {
                    &&& e == DecodeError::EndOfInput
                    &&& old(self).pos() + 4 > old(self).buf().len()
                },
            },
    {
        let u = self.parse_to_u32()?;
        if u >= 0x8000_0000 {
            let wide: i64 = u as i64 - 0x1_0000_0000;
            Ok(wide as i32)
        } else {
            Ok(u as i32)
        }
    }

    /// Reads a 32-bit float as its raw little-endian bit pattern; the
    /// decoder stores floats without interpreting them.
    pub fn parse_to_f32_bits(&mut self) -> (r: Result<u32, DecodeError>)
        ensures
            final(self).only_cursor_moved(*old(self)),
            match r {
                Ok(v) => {
                    &&& old(self).pos() + 4 <= old(self).buf().len()
                    &&& v == u32_at(old(self).buf(), old(self).pos())
                    &&& final(self).pos() == old(self).pos() + 4
                },
                Err(e) => {
                    &&& e == DecodeError::EndOfInput
                    &&& old(self).pos() + 4 > old(self).buf().len()
                },
            },
    {
        self.parse_to_u32()
    }

    /// Reads `byte_count` raw bytes into an owned buffer; the wide
    /// counterpart of `parse_to_string` for bulk payloads.
    pub fn read_blob(&mut self, byte_count: usize) -> (r: Result<Vec<u8>, DecodeError>)
        ensures
            final(self).only_cursor_moved(*old(self)),
            match r {
                Ok(v) => {
                    &&& old(self).pos() + byte_count <= old(self).buf().len()
                    &&& v@ == old(self).buf().subrange(
                        old(self).pos(),
                        old(self).pos() + byte_count,
                    )
                    &&& final(self).pos() == old(self).pos() + byte_count
                },
                Err(e) => {
                    &&& e == DecodeError::EndOfInput
                    &&& old(self).pos() + byte_count > old(self).buf().len()
                },
            },
    {
        let mut out: Vec<u8> = Vec::new();
        let mut i: usize = 0;
        if self.position > self.input.len() || byte_count > self.input.len() - self.position {
            return Err(DecodeError::EndOfInput);
        }
        proof {
            assert(out@ =~= old(self).buf().subrange(old(self).pos(), old(self).pos()));
        }
        #[verifier::loop_isolation(false)]
        while i < byte_count
            invariant
                i <= byte_count,
                self.only_cursor_moved(*old(self)),
                self.pos() == old(self).pos() + i,
                out@ == old(self).buf().subrange(old(self).pos(), old(self).pos() + i),
            decreases byte_count - i,
        {
            let b = self.input[self.position];
            self.position = self.position + 1;
            out.push(b);
            i = i + 1;
            proof {
                assert(out@ =~= old(self).buf().subrange(old(self).pos(), old(self).pos() + i));
            }
        }
        Ok(out)
    }

    /// Reads `byte_count` raw bytes as an uninterpreted byte string;
    /// the format promises no text encoding.
    pub fn parse_to_string(&mut self, byte_count: u16) -> (r: Result<Vec<u8>, DecodeError>)
        ensures
            final(self).only_cursor_moved(*old(self)),
            match r {
                Ok(v) => {
                    &&& old(self).pos() + byte_count <= old(self).buf().len()
                    &&& v@ == old(self).buf().subrange(
                        old(self).pos(),
                        old(self).pos() + byte_count,
                    )
                    &&& final(self).pos() == old(self).pos() + byte_count
                },
                Err(e) => {
                    &&& e == DecodeError::EndOfInput
                    &&& old(self).pos() + byte_count > old(self).buf().len()
                },
            },
    {
        let mut out: Vec<u8> = Vec::new();
        let mut i: u16 = 0;
        // A single bounds check up front keeps each iteration total.
        if self.position > self.input.len() || (byte_count as usize) > self.input.len()
            - self.position {
            return Err(DecodeError::EndOfInput);
        }
        proof {
            assert(out@ =~= old(self).buf().subrange(old(self).pos(), old(self).pos()));
        }
        #[verifier::loop_isolation(false)]
        while i < byte_count
            invariant
                i <= byte_count,
                self.only_cursor_moved(*old(self)),
                self.pos() == old(self).pos() + i,
                out@ == old(self).buf().subrange(old(self).pos(), old(self).pos() + i),
            decreases byte_count - i,
        {
            let b = self.input[self.position];
            self.position = self.position + 1;
            out.push(b);
            i = i + 1;
            proof {
                assert(out@ =~= old(self).buf().subrange(old(self).pos(), old(self).pos() + i));
            }
        }
        Ok(out)
    }
}

} // verus!
