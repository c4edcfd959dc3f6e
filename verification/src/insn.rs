//! The fixed eight-byte instruction record and its byte codec.

use vstd::prelude::*;

use crate::cursor::Endianness;

verus! {

/// The opcode of a helper-call instruction.
pub const CALL_OPCODE: u8 = 0x85;

/// The sentinel immediate written into poisoned call instructions; executing
/// it deterministically traps with a recognizable error.
pub const POISON_CALL_IMM: i32 = 0xBAD2310;

/// One fixed-size bytecode instruction.
#[derive(Copy, Clone, Debug, PartialEq, Eq, Structural)]
pub struct Instruction {
    /// Operation code.
    pub opcode: u8,
    /// Destination register, low four bits used.
    pub dst_reg: u8,
    /// Source register, low four bits used.
    pub src_reg: u8,
    /// Signed byte or instruction offset operand.
    pub offset: i16,
    /// Signed 32-bit immediate operand.
    pub imm: i32,
}

/// The instruction that poisoned relocations overwrite: a call to a helper
/// that cannot exist, carrying the sentinel immediate.
pub open spec fn spec_poison_insn() -> Instruction {
    Instruction { opcode: CALL_OPCODE, dst_reg: 0, src_reg: 0, offset: 0, imm: POISON_CALL_IMM }
}

/// Returns the poison instruction.
pub fn poison_insn() -> (r: Instruction)
    ensures
        r == spec_poison_insn(),
{
    Instruction { opcode: CALL_OPCODE, dst_reg: 0, src_reg: 0, offset: 0, imm: POISON_CALL_IMM }
}

/// The signed 32-bit value with the same bit pattern as `v`.
pub open spec fn i32_of_bits(v: u32) -> i32 {
    if v < 0x8000_0000 {
        v as i32
    } else {
        (v - 0x1_0000_0000) as i32
    }
}

/// The unsigned 32-bit value with the same bit pattern as `v`.
pub open spec fn bits_of_i32(v: i32) -> u32 {
    if v >= 0 {
        v as u32
    } else {
        (v + 0x1_0000_0000) as u32
    }
}

/// Returns the signed value with the same bit pattern as `v`.
pub fn i32_from_bits(v: u32) -> (r: i32)
    ensures
        r == i32_of_bits(v),
{
    if v < 0x8000_0000 {
        v as i32
    } else {
        (v as i64 - 0x1_0000_0000i64) as i32
    }
}

/// Returns the unsigned value with the same bit pattern as `v`.
pub fn i32_to_bits(v: i32) -> (r: u32)
    ensures
        r == bits_of_i32(v),
{
    if v >= 0 {
        v as u32
    } else {
        (v as i64 + 0x1_0000_0000i64) as u32
    }
}

/// The signed 16-bit value with the same bit pattern as `v`.
pub open spec fn i16_of_bits(v: u16) -> i16 {
    if v < 0x8000 {
        v as i16
    } else {
        (v - 0x1_0000) as i16
    }
}

/// Returns the signed value with the same bit pattern as `v`.
pub fn i16_from_bits(v: u16) -> (r: i16)
    ensures
        r == i16_of_bits(v),
{
    if v < 0x8000 {
        v as i16
    } else {
        (v as i32 - 0x1_0000i32) as i16
    }
}

/// The instruction decoded from eight bytes, with the register nibbles read
/// according to the declared byte order.
pub open spec fn spec_decode_insn(b: Seq<u8>, e: Endianness) -> Instruction
    recommends
        b.len() == 8,
{
    let regs = b[1];
    let off16 = crate::cursor::spec_u16_at(b, 2, e);
    let imm32 = crate::cursor::spec_u32_at(b, 4, e);
    Instruction {
        opcode: b[0],
        dst_reg: if e is Little {
            (regs & 0x0F) as u8
        } else {
            (regs >> 4) as u8
        },
        src_reg: if e is Little {
            (regs >> 4) as u8
        } else {
            (regs & 0x0F) as u8
        },
        offset: i16_of_bits(off16),
        imm: i32_of_bits(imm32),
    }
}

/// Decodes the eight bytes starting at `off` into an instruction.
pub fn decode_insn(b: &Vec<u8>, off: usize, e: Endianness) -> (r: Instruction)
    requires
        off + 8 <= b.len(),
    ensures
        r == spec_decode_insn(b@.subrange(off as int, off + 8), e),
{
    let regs = b[off + 1];
    let off16 = crate::cursor::read_u16(b, off + 2, e);
    let imm32 = crate::cursor::read_u32(b, off + 4, e);
    let ghost sub = b@.subrange(off as int, off + 8);
    proof {
        assert(sub[0] == b@[off as int]);
        assert(sub[1] == b@[off + 1]);
        assert(crate::cursor::spec_u16_at(sub, 2, e) == crate::cursor::spec_u16_at(
            b@,
            off + 2,
            e,
        ));
        assert(crate::cursor::spec_u32_at(sub, 4, e) == crate::cursor::spec_u32_at(
            b@,
            off + 4,
            e,
        ));
    }
    Instruction {
        opcode: b[off],
        dst_reg: if matches!(e, Endianness::Little) {
            regs & 0x0F
        } else {
            regs >> 4
        },
        src_reg: if matches!(e, Endianness::Little) {
            regs >> 4
        } else {
            regs & 0x0F
        },
        offset: i16_from_bits(off16),
        imm: i32_from_bits(imm32),
    }
}

} // verus!
