use vstd::prelude::*;

verus! {

/// Everything that can go wrong while decoding a map stream.
///
/// Decoding is strict at the header, variable and entity levels: these
/// errors abort the whole decode. An unknown cube kind inside the octree
/// is tolerated instead (the decoder stops descending into the current
/// subtree and reports it through a flag, see `Parser::parse_cube`), so
/// `InvalidCubeKind` documents that taxonomy entry without ever aborting
/// a decode.
#[derive(Debug, Clone, Copy, PartialEq, Eq)]
pub enum DecodeError {
    /// A read ran past the end of the input buffer.
    EndOfInput,
    /// The first four bytes are not the ASCII magic "OCTA".
    BadMagic,
    /// The header's format revision is not the one this decoder implements.
    UnsupportedVersion,
    /// A game-variable record carries a type tag outside {0, 1, 2}.
    UnknownVariableType(u8),
    /// An entity record carries a kind byte outside 0..32.
    UnknownEntityKind(u8),
    /// A cube header byte has its low three bits outside {0..4}.
    InvalidCubeKind(u8),
    /// A surface/vertex block demands bytes beyond the buffer.
    TruncatedSurface,
}

} // verus!
