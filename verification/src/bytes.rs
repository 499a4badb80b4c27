use vstd::prelude::*;

verus! {

/// The four ASCII magic bytes "OCTA" that open every map stream.
pub open spec fn octa_magic() -> Seq<u8> {
    seq![0x4Fu8, 0x43u8, 0x54u8, 0x41u8]
}

/// The one format revision this decoder implements.
pub const SUPPORTED_VERSION: u32 = 33;

/// Unsigned little-endian 16-bit value stored at offset `p` of `b`,
/// as a mathematical integer.
pub open spec fn le16_at(b: Seq<u8>, p: int) -> int {
    b[p] + 0x100 * b[p + 1]
}

/// Unsigned little-endian 32-bit value stored at offset `p` of `b`,
/// as a mathematical integer.
pub open spec fn le32_at(b: Seq<u8>, p: int) -> int {
    b[p] + 0x100 * b[p + 1] + 0x1_0000 * b[p + 2] + 0x100_0000 * b[p + 3]
}

/// Signed (two's complement) little-endian 32-bit value stored at
/// offset `p` of `b`, as a mathematical integer.
pub open spec fn le32_signed_at(b: Seq<u8>, p: int) -> int {
    if le32_at(b, p) >= 0x8000_0000 {
        le32_at(b, p) - 0x1_0000_0000
    } else {
        le32_at(b, p)
    }
}

/// `le16_at`, typed.
pub open spec fn u16_at(b: Seq<u8>, p: int) -> u16 {
    le16_at(b, p) as u16
}

/// `le32_at`, typed.
pub open spec fn u32_at(b: Seq<u8>, p: int) -> u32 {
    le32_at(b, p) as u32
}

/// `le32_signed_at`, typed.
pub open spec fn i32_at(b: Seq<u8>, p: int) -> i32 {
    le32_signed_at(b, p) as i32
}

} // verus!
