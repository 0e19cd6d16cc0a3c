//! On-disk layout of the two headers, and little-endian field decoding.
use vstd::prelude::*;

verus! {

/// Size in bytes of the legacy (DOS) header.
pub const LEGACY_HEADER_SIZE: usize = 64;

/// Position of the 4-byte `extended_header_offset` field in the legacy header.
pub const EXTENDED_OFFSET_FIELD: usize = 60;

/// Size in bytes of the extended (PE) header: a 4-byte signature and a
/// 20-byte file header.
pub const EXTENDED_HEADER_SIZE: usize = 24;

/// Position of the 2-byte `machine_type` field in the extended header.
pub const MACHINE_FIELD: usize = 4;

/// `MZ`, read as a little-endian 16-bit integer.
pub const LEGACY_SIGNATURE: u16 = 0x5A4D;

/// `PE\0\0`, read as a little-endian 32-bit integer.
pub const EXTENDED_SIGNATURE: u32 = 0x0000_4550;

/// Machine code of 32-bit x86.
pub const MACHINE_I386: u16 = 0x014C;

/// Machine code of 64-bit x86.
pub const MACHINE_AMD64: u16 = 0x8664;

/// The unsigned little-endian 16-bit integer held by `b[i]`, `b[i + 1]`.
pub open spec fn le16(b: Seq<u8>, i: int) -> int {
    b[i] as int + 256 * b[i + 1] as int
}

/// The unsigned little-endian 32-bit integer held by `b[i] .. b[i + 3]`.
pub open spec fn le32(b: Seq<u8>, i: int) -> int {
    le16(b, i) + 65536 * le16(b, i + 2)
}

/// The two's-complement reading of a 32-bit pattern `u`.
pub open spec fn signed32(u: int) -> int {
    if u < 0x8000_0000 {
        u
    } else {
        u - 0x1_0000_0000
    }
}

/// Decodes the little-endian `u16` at position `i` of `b`.
pub fn read_u16_le(b: &[u8], i: usize) -> (r: u16)
    requires
        i + 2 <= b@.len(),
    ensures
        r as int == le16(b@, i as int),
{
    let lo = b[i] as u16;
    let hi = b[i + 1] as u16;
    lo + 256 * hi
}

/// Decodes the little-endian `u32` at position `i` of `b`.
pub fn read_u32_le(b: &[u8], i: usize) -> (r: u32)
    requires
        i + 4 <= b@.len(),
    ensures
        r as int == le32(b@, i as int),
{
    let n = b.len();
    assert(i + 4 <= n);
    let lo = read_u16_le(b, i) as u32;
    let hi = read_u16_le(b, i + 2) as u32;
    lo + 65536 * hi
}

} // verus!
