//! Little-endian field reads: the word abstraction that hides the one
//! difference between the 32-bit and the 64-bit layouts. Each natural-width
//! field is widened losslessly to 64 bits; all bounds arithmetic around these
//! reads is overflow-checked by the callers.

use vstd::prelude::*;

verus! {

/// The 16-bit little-endian value stored at byte offset `i` of `s`.
pub open spec fn le16_at(s: Seq<u8>, i: int) -> u16 {
    (s[i] + 0x100 * s[i + 1]) as u16
}

/// The 32-bit little-endian value stored at byte offset `i` of `s`.
pub open spec fn le32_at(s: Seq<u8>, i: int) -> u32 {
    (s[i] + 0x100 * s[i + 1] + 0x1_0000 * s[i + 2] + 0x100_0000 * s[i + 3]) as u32
}

/// The 64-bit little-endian value stored at byte offset `i` of `s`.
pub open spec fn le64_at(s: Seq<u8>, i: int) -> u64 {
    (le32_at(s, i) + 0x1_0000_0000 * le32_at(s, i + 4)) as u64
}

/// Reads the 16-bit little-endian value at `off`.
pub fn read_u16(buf: &[u8], off: usize) -> (r: u16)
    requires
        off + 2 <= buf@.len(),
    ensures
        r == le16_at(buf@, off as int),
{
    let b0 = buf[off];
    let b1 = buf[off + 1];
    b0 as u16 + b1 as u16 * 0x100
}

/// Reads the 32-bit little-endian value at `off`.
pub fn read_u32(buf: &[u8], off: usize) -> (r: u32)
    requires
        off + 4 <= buf@.len(),
    ensures
        r == le32_at(buf@, off as int),
{
    let b0 = buf[off];
    let b1 = buf[off + 1];
    let b2 = buf[off + 2];
    let b3 = buf[off + 3];
    b0 as u32 + b1 as u32 * 0x100 + b2 as u32 * 0x1_0000 + b3 as u32 * 0x100_0000
}

/// Reads the 64-bit little-endian value at `off`.
pub fn read_u64(buf: &[u8], off: usize) -> (r: u64)
    requires
        off + 8 <= buf@.len(),
    ensures
        r == le64_at(buf@, off as int),
{
    let _n = buf.len();
    let lo = read_u32(buf, off);
    let hi = read_u32(buf, off + 4);
    lo as u64 + hi as u64 * 0x1_0000_0000
}

} // verus!
