//! The six standard encoding shapes of the 32-bit instruction word and
//! their field and immediate reconstruction rules.
//!
//! Bit positions follow the ISA convention: bit 0 is the least significant
//! bit of the word. Every immediate is sign-extended from the word's top
//! bit, except the upper-immediate shape, whose low 12 bits are zero.

use vstd::prelude::*;

verus! {

/// Bits 6..0: the major opcode.
pub open spec fn spec_opcode(w: u32) -> u8 {
    (w & 0x7F) as u8
}

/// Bits 11..7: the destination register field.
pub open spec fn spec_rd(w: u32) -> u8 {
    ((w & 0xF80) >> 7) as u8
}

/// Bits 19..15: the first source register field.
pub open spec fn spec_rs1(w: u32) -> u8 {
    ((w & 0xF8000) >> 15) as u8
}

/// Bits 24..20: the second source register field.
pub open spec fn spec_rs2(w: u32) -> u8 {
    ((w & 0x1F0_0000) >> 20) as u8
}

/// Bits 14..12: the minor opcode.
pub open spec fn spec_funct3(w: u32) -> u8 {
    ((w & 0x7000) >> 12) as u8
}

/// Bits 31..25: the seven-bit function field of the register shape.
pub open spec fn spec_funct7(w: u32) -> u8 {
    ((w & 0xFE00_0000) >> 25) as u8
}

/// The I-shape immediate: bits 31..20, sign-extended to 32 bits.
pub open spec fn spec_i_imm(w: u32) -> u32 {
    if w >= 0x8000_0000 {
        (w >> 20) | 0xFFFF_F000
    } else {
        w >> 20
    }
}

/// The S-shape immediate: bits 31..25 over bits 11..7, sign-extended.
pub open spec fn spec_s_imm(w: u32) -> u32 {
    let v = (((w >> 25) & 0x7F) << 5) | ((w >> 7) & 0x1F);
    if w >= 0x8000_0000 {
        v | 0xFFFF_F000
    } else {
        v
    }
}

/// The B-shape immediate: bit 31 is bit 12, bit 7 is bit 11, bits 30..25
/// are bits 10..5, bits 11..8 are bits 4..1, bit 0 is zero; sign-extended.
pub open spec fn spec_b_imm(w: u32) -> u32 {
    let v = (((w >> 31) & 1) << 12) | (((w >> 7) & 1) << 11) | (((w >> 25) & 0x3F) << 5) | (((w
        >> 8) & 0xF) << 1);
    if w >= 0x8000_0000 {
        v | 0xFFFF_E000
    } else {
        v
    }
}

/// The U-shape immediate: bits 31..12 in place, low 12 bits zero.
pub open spec fn spec_u_imm(w: u32) -> u32 {
    w & 0xFFFF_F000
}

/// The J-shape immediate: bit 31 is bit 20, bits 19..12 in place, bit 20
/// is bit 11, bits 30..21 are bits 10..1, bit 0 is zero; sign-extended.
pub open spec fn spec_j_imm(w: u32) -> u32 {
    let v = (((w >> 31) & 1) << 20) | (w & 0xFF000) | (((w >> 20) & 1) << 11) | (((w >> 21)
        & 0x3FF) << 1);
    if w >= 0x8000_0000 {
        v | 0xFFE0_0000
    } else {
        v
    }
}

/// Every register field fits the register file and every function field
/// fits its width.
pub proof fn lemma_field_bounds(w: u32)
    ensures
        spec_opcode(w) < 0x80,
        spec_rd(w) < 32,
        spec_rs1(w) < 32,
        spec_rs2(w) < 32,
        spec_funct3(w) < 8,
        spec_funct7(w) < 0x80,
{
    assert((w & 0x7F) < 0x80 && ((w & 0xF80) >> 7) < 32 && ((w & 0xF8000) >> 15) < 32 && ((w
        & 0x1F0_0000) >> 20) < 32 && ((w & 0x7000) >> 12) < 8 && ((w & 0xFE00_0000) >> 25)
        < 0x80) by (bit_vector);
}

/// Bits 6..0: the major opcode.
pub fn get_opcode(instruction: u32) -> (r: u8)
    ensures
        r == spec_opcode(instruction),
{
    (instruction & 0x7F) as u8
}

/// Bits 11..7: the destination register field.
pub fn get_rd(instruction: u32) -> (r: u8)
    ensures
        r == spec_rd(instruction),
{
    ((instruction & 0xF80) >> 7) as u8
}

/// Bits 19..15: the first source register field.
pub fn get_rs1(instruction: u32) -> (r: u8)
    ensures
        r == spec_rs1(instruction),
{
    ((instruction & 0xF8000) >> 15) as u8
}

/// Bits 24..20: the second source register field.
pub fn get_rs2(instruction: u32) -> (r: u8)
    ensures
        r == spec_rs2(instruction),
{
    ((instruction & 0x1F0_0000) >> 20) as u8
}

/// Bits 14..12: the minor opcode.
pub fn get_funct3(instruction: u32) -> (r: u8)
    ensures
        r == spec_funct3(instruction),
{
    ((instruction & 0x7000) >> 12) as u8
}

/// Bits 31..25: the seven-bit function field of the register shape.
pub fn get_funct7(instruction: u32) -> (r: u8)
    ensures
        r == spec_funct7(instruction),
{
    ((instruction & 0xFE00_0000) >> 25) as u8
}

/// The register-register shape: two sources, a destination and two
/// function fields.
pub struct R {
    pub opcode: u8,
    pub rd: u8,
    pub funct3: u8,
    pub rs1: u8,
    pub rs2: u8,
    pub funct7: u8,
}

/// The immediate shape: one source, a destination and a 12-bit signed
/// immediate.
pub struct I {
    pub opcode: u8,
    pub rd: u8,
    pub funct3: u8,
    pub rs1: u8,
    pub immediate: i32,
}

/// The store shape: two sources and a split 12-bit signed immediate.
pub struct S {
    pub opcode: u8,
    pub funct3: u8,
    pub rs1: u8,
    pub rs2: u8,
    pub immediate: i32,
}

/// The branch shape: two sources and a 13-bit signed even immediate.
pub struct SB {
    pub opcode: u8,
    pub funct3: u8,
    pub rs1: u8,
    pub rs2: u8,
    pub immediate: i32,
}

/// The upper-immediate shape: a destination and the top 20 bits of an
/// immediate.
pub struct U {
    pub opcode: u8,
    pub rd: u8,
    pub immediate: i32,
}

/// The jump shape: a destination and a 21-bit signed even immediate.
pub struct UJ {
    pub opcode: u8,
    pub rd: u8,
    pub immediate: i32,
}

impl R {
    /// Splits a word along the register-register shape.
    pub fn parse(instruction: u32) -> (r: R)
        ensures
            r.opcode == spec_opcode(instruction),
            r.rd == spec_rd(instruction),
            r.funct3 == spec_funct3(instruction),
            r.rs1 == spec_rs1(instruction),
            r.rs2 == spec_rs2(instruction),
            r.funct7 == spec_funct7(instruction),
    {
        R {
            opcode: get_opcode(instruction),
            rd: get_rd(instruction),
            funct3: get_funct3(instruction),
            rs1: get_rs1(instruction),
            rs2: get_rs2(instruction),
            funct7: get_funct7(instruction),
        }
    }

    /// Reassembles the word from the fields. All 32 bits are covered by
    /// fields, so this inverts `parse` exactly.
    pub fn to_raw(&self) -> (r: u32)
        requires
            self.opcode < 0x80,
            self.rd < 32,
            self.funct3 < 8,
            self.rs1 < 32,
            self.rs2 < 32,
            self.funct7 < 0x80,
        ensures
            r == spec_r_raw(*self),
    {
        self.opcode as u32 | (self.rd as u32) << 7 | (self.funct3 as u32) << 12 | (self.rs1
            as u32) << 15 | (self.rs2 as u32) << 20 | (self.funct7 as u32) << 25
    }
}

/// The word that the register-register fields assemble to.
pub open spec fn spec_r_raw(r: R) -> u32 {
    r.opcode as u32 | (r.rd as u32) << 7 | (r.funct3 as u32) << 12 | (r.rs1 as u32) << 15 | (r.rs2
        as u32) << 20 | (r.funct7 as u32) << 25
}

impl I {
    /// Splits a word along the immediate shape, sign-extending the
    /// immediate.
    pub fn parse(instruction: u32) -> (r: I)
        ensures
            r.opcode == spec_opcode(instruction),
            r.rd == spec_rd(instruction),
            r.funct3 == spec_funct3(instruction),
            r.rs1 == spec_rs1(instruction),
            r.immediate == spec_i_imm(instruction) as i32,
    {
        let w = instruction;
        let imm = if w >= 0x8000_0000 {
            (w >> 20) | 0xFFFF_F000
        } else {
            w >> 20
        };
        I {
            opcode: get_opcode(instruction),
            rd: get_rd(instruction),
            funct3: get_funct3(instruction),
            rs1: get_rs1(instruction),
            immediate: imm as i32,
        }
    }

    /// Reassembles the word from the fields, keeping the low 12 bits of
    /// the immediate.
    pub fn to_raw(&self) -> (r: u32)
        requires
            self.opcode < 0x80,
            self.rd < 32,
            self.funct3 < 8,
            self.rs1 < 32,
        ensures
            r == spec_i_raw(*self),
    {
        self.opcode as u32 | (self.rd as u32) << 7 | (self.funct3 as u32) << 12 | (self.rs1
            as u32) << 15 | ((self.immediate as u32) & 0xFFF) << 20
    }
}

/// The word that the immediate-shape fields assemble to.
pub open spec fn spec_i_raw(i: I) -> u32 {
    i.opcode as u32 | (i.rd as u32) << 7 | (i.funct3 as u32) << 12 | (i.rs1 as u32) << 15 | ((
    i.immediate as u32) & 0xFFF) << 20
}

impl S {
    /// Splits a word along the store shape, sign-extending the split
    /// immediate.
    pub fn parse(instruction: u32) -> (r: S)
        ensures
            r.opcode == spec_opcode(instruction),
            r.funct3 == spec_funct3(instruction),
            r.rs1 == spec_rs1(instruction),
            r.rs2 == spec_rs2(instruction),
            r.immediate == spec_s_imm(instruction) as i32,
    {
        let w = instruction;
        let v = (((w >> 25) & 0x7F) << 5) | ((w >> 7) & 0x1F);
        let imm = if w >= 0x8000_0000 {
            v | 0xFFFF_F000
        } else {
            v
        };
        S {
            opcode: get_opcode(instruction),
            funct3: get_funct3(instruction),
            rs1: get_rs1(instruction),
            rs2: get_rs2(instruction),
            immediate: imm as i32,
        }
    }
}

impl SB {
    /// Splits a word along the branch shape, rebuilding the scattered
    /// immediate with its implicit zero bit.
    pub fn parse(instruction: u32) -> (r: SB)
        ensures
            r.opcode == spec_opcode(instruction),
            r.funct3 == spec_funct3(instruction),
            r.rs1 == spec_rs1(instruction),
            r.rs2 == spec_rs2(instruction),
            r.immediate == spec_b_imm(instruction) as i32,
    {
        let w = instruction;
        let v = (((w >> 31) & 1) << 12) | (((w >> 7) & 1) << 11) | (((w >> 25) & 0x3F) << 5) | (((w
            >> 8) & 0xF) << 1);
        let imm = if w >= 0x8000_0000 {
            v | 0xFFFF_E000
        } else {
            v
        };
        SB {
            opcode: get_opcode(instruction),
            funct3: get_funct3(instruction),
            rs1: get_rs1(instruction),
            rs2: get_rs2(instruction),
            immediate: imm as i32,
        }
    }
}

impl U {
    /// Splits a word along the upper-immediate shape; the immediate keeps
    /// its position, with the low 12 bits zero.
    pub fn parse(instruction: u32) -> (r: U)
        ensures
            r.opcode == spec_opcode(instruction),
            r.rd == spec_rd(instruction),
            r.immediate == spec_u_imm(instruction) as i32,
    {
        U {
            opcode: get_opcode(instruction),
            rd: get_rd(instruction),
            immediate: (instruction & 0xFFFF_F000) as i32,
        }
    }

    /// Reassembles the word from the fields, keeping the top 20 bits of
    /// the immediate.
    pub fn to_raw(&self) -> (r: u32)
        requires
            self.opcode < 0x80,
            self.rd < 32,
        ensures
            r == spec_u_raw(*self),
    {
        self.opcode as u32 | (self.rd as u32) << 7 | ((self.immediate as u32) & 0xFFFF_F000)
    }
}

/// The word that the upper-immediate fields assemble to.
pub open spec fn spec_u_raw(u: U) -> u32 {
    u.opcode as u32 | (u.rd as u32) << 7 | ((u.immediate as u32) & 0xFFFF_F000)
}

impl UJ {
    /// Splits a word along the jump shape, rebuilding the scattered
    /// immediate with its implicit zero bit.
    pub fn parse(instruction: u32) -> (r: UJ)
        ensures
            r.opcode == spec_opcode(instruction),
            r.rd == spec_rd(instruction),
            r.immediate == spec_j_imm(instruction) as i32,
    {
        let w = instruction;
        let v = (((w >> 31) & 1) << 20) | (w & 0xFF000) | (((w >> 20) & 1) << 11) | (((w >> 21)
            & 0x3FF) << 1);
        let imm = if w >= 0x8000_0000 {
            v | 0xFFE0_0000
        } else {
            v
        };
        UJ {
            opcode: get_opcode(instruction),
            rd: get_rd(instruction),
            immediate: imm as i32,
        }
    }
}

/// Splitting a word along the immediate shape and reassembling the fields
/// gives the word back: the shape's fields cover all 32 bits.
pub proof fn lemma_i_roundtrip(w: u32)
    ensures
        spec_i_raw(
            I {
                opcode: spec_opcode(w),
                rd: spec_rd(w),
                funct3: spec_funct3(w),
                rs1: spec_rs1(w),
                immediate: spec_i_imm(w) as i32,
            },
        ) == w,
{
    assert(((w & 0x7F) as u8) as u32 | ((((w & 0xF80) >> 7) as u8) as u32) << 7 | ((((w & 0x7000)
        >> 12) as u8) as u32) << 12 | ((((w & 0xF8000) >> 15) as u8) as u32) << 15 | (((if w
        >= 0x8000_0000 {
        (w >> 20) | 0xFFFF_F000
    } else {
        w >> 20
    }) as i32) as u32 & 0xFFF) << 20 == w) by (bit_vector);
}

/// Splitting a word along the register-register shape and reassembling
/// the fields gives the word back.
pub proof fn lemma_r_roundtrip(w: u32)
    ensures
        spec_r_raw(
            R {
                opcode: spec_opcode(w),
                rd: spec_rd(w),
                funct3: spec_funct3(w),
                rs1: spec_rs1(w),
                rs2: spec_rs2(w),
                funct7: spec_funct7(w),
            },
        ) == w,
{
    assert(((w & 0x7F) as u8) as u32 | ((((w & 0xF80) >> 7) as u8) as u32) << 7 | ((((w & 0x7000)
        >> 12) as u8) as u32) << 12 | ((((w & 0xF8000) >> 15) as u8) as u32) << 15 | ((((w
        & 0x1F0_0000) >> 20) as u8) as u32) << 20 | ((((w & 0xFE00_0000) >> 25) as u8) as u32)
        << 25 == w) by (bit_vector);
}

/// Splitting a word along the upper-immediate shape and reassembling the
/// fields gives the word back.
pub proof fn lemma_u_roundtrip(w: u32)
    ensures
        spec_u_raw(
            U { opcode: spec_opcode(w), rd: spec_rd(w), immediate: spec_u_imm(w) as i32 },
        ) == w,
{
    assert(((w & 0x7F) as u8) as u32 | ((((w & 0xF80) >> 7) as u8) as u32) << 7 | (((w
        & 0xFFFF_F000) as i32) as u32 & 0xFFFF_F000) == w) by (bit_vector);
}

} // verus!
