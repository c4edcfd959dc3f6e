//! Endian-aware, bounds-checked decoding of fixed-size little or big endian
//! integers from byte buffers.

use vstd::prelude::*;

verus! {

/// The byte order a buffer was written in.
#[derive(Copy, Clone, Debug, PartialEq, Eq, Structural)]
pub enum Endianness {
    /// Least significant byte first.
    Little,
    /// Most significant byte first.
    Big,
}

/// The 16-bit value stored at `off`, read in byte order `e`.
pub open spec fn spec_u16_at(b: Seq<u8>, off: int, e: Endianness) -> u16
    recommends
        0 <= off,
        off + 2 <= b.len(),
{
    match e {
        Endianness::Little => (b[off] + b[off + 1] * 0x100) as u16,
        Endianness::Big => (b[off + 1] + b[off] * 0x100) as u16,
    }
}

/// The 32-bit value stored at `off`, read in byte order `e`.
pub open spec fn spec_u32_at(b: Seq<u8>, off: int, e: Endianness) -> u32
    recommends
        0 <= off,
        off + 4 <= b.len(),
{
    match e {
        Endianness::Little => (b[off] + b[off + 1] * 0x100 + b[off + 2] * 0x1_0000 + b[off + 3]
            * 0x100_0000) as u32,
        Endianness::Big => (b[off + 3] + b[off + 2] * 0x100 + b[off + 1] * 0x1_0000 + b[off]
            * 0x100_0000) as u32,
    }
}

/// The 64-bit value stored at `off`, read in byte order `e`.
pub open spec fn spec_u64_at(b: Seq<u8>, off: int, e: Endianness) -> u64
    recommends
        0 <= off,
        off + 8 <= b.len(),
{
    match e {
        Endianness::Little => (spec_u32_at(b, off, e) + spec_u32_at(b, off + 4, e)
            * 0x1_0000_0000) as u64,
        Endianness::Big => (spec_u32_at(b, off + 4, e) + spec_u32_at(b, off, e)
            * 0x1_0000_0000) as u64,
    }
}

/// Reads the 16-bit value stored at `off` in byte order `e`.
pub fn read_u16(b: &Vec<u8>, off: usize, e: Endianness) -> (r: u16)
    requires
        off + 2 <= b.len(),
    ensures
        r == spec_u16_at(b@, off as int, e),
{
    match e {
        Endianness::Little => b[off] as u16 + b[off + 1] as u16 * 0x100,
        Endianness::Big => b[off + 1] as u16 + b[off] as u16 * 0x100,
    }
}

/// Reads the 32-bit value stored at `off` in byte order `e`.
pub fn read_u32(b: &Vec<u8>, off: usize, e: Endianness) -> (r: u32)
    requires
        off + 4 <= b.len(),
    ensures
        r == spec_u32_at(b@, off as int, e),
{
    match e {
        Endianness::Little => b[off] as u32 + b[off + 1] as u32 * 0x100 + b[off + 2] as u32
            * 0x1_0000 + b[off + 3] as u32 * 0x100_0000,
        Endianness::Big => b[off + 3] as u32 + b[off + 2] as u32 * 0x100 + b[off + 1] as u32
            * 0x1_0000 + b[off] as u32 * 0x100_0000,
    }
}

/// Reads the 64-bit value stored at `off` in byte order `e`.
pub fn read_u64(b: &Vec<u8>, off: usize, e: Endianness) -> (r: u64)
    requires
        off + 8 <= b.len(),
    ensures
        r == spec_u64_at(b@, off as int, e),
{
    match e {
        Endianness::Little => read_u32(b, off, e) as u64 + read_u32(b, off + 4, e) as u64
            * 0x1_0000_0000,
        Endianness::Big => read_u32(b, off + 4, e) as u64 + read_u32(b, off, e) as u64
            * 0x1_0000_0000,
    }
}

} // verus!
