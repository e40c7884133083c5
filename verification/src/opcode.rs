//! The seven-bit major opcodes and the encoding shape each one selects.

use crate::encoding::spec_opcode;
use crate::instruction::Instruction;
use vstd::prelude::*;

verus! {

/// The major opcodes of the 32-bit encoding.
#[derive(Clone, Copy, Debug, PartialEq, Eq, Structural)]
pub enum Opcode {
    Load,
    LoadFP,
    MiscMem,
    OpImm,
    Auipc,
    OpImm32,
    Store,
    StoreFP,
    Amo,
    Op,
    Lui,
    Op32,
    Madd,
    Msub,
    Nmsub,
    Nmadd,
    OpFp,
    Branch,
    Jalr,
    Jal,
    System,
}

/// The opcode a seven-bit value names, if any.
pub open spec fn spec_opcode_from_u8(opcode: u8) -> Option<Opcode> {
    match opcode {
        0x03 => Some(Opcode::Load),
        0x07 => Some(Opcode::LoadFP),
        0x0F => Some(Opcode::MiscMem),
        0x13 => Some(Opcode::OpImm),
        0x17 => Some(Opcode::Auipc),
        0x1B => Some(Opcode::OpImm32),
        0x23 => Some(Opcode::Store),
        0x27 => Some(Opcode::StoreFP),
        0x2F => Some(Opcode::Amo),
        0x33 => Some(Opcode::Op),
        0x37 => Some(Opcode::Lui),
        0x3B => Some(Opcode::Op32),
        0x43 => Some(Opcode::Madd),
        0x47 => Some(Opcode::Msub),
        0x4B => Some(Opcode::Nmsub),
        0x4F => Some(Opcode::Nmadd),
        0x53 => Some(Opcode::OpFp),
        0x63 => Some(Opcode::Branch),
        0x67 => Some(Opcode::Jalr),
        0x6F => Some(Opcode::Jal),
        0x73 => Some(Opcode::System),
        _ => None,
    }
}

/// The encoding shape an opcode selects for a word.
pub open spec fn spec_parse_instruction(op: Opcode, instruction: u32) -> Instruction {
    match op {
        Opcode::OpImm | Opcode::OpImm32 | Opcode::Jalr | Opcode::Load | Opcode::LoadFP
            | Opcode::MiscMem | Opcode::System => Instruction::I(instruction),
        Opcode::Lui | Opcode::Auipc => Instruction::U(instruction),
        Opcode::Op | Opcode::Op32 | Opcode::OpFp | Opcode::Amo | Opcode::Madd | Opcode::Msub
            | Opcode::Nmadd | Opcode::Nmsub => Instruction::R(instruction),
        Opcode::Jal => Instruction::UJ(instruction),
        Opcode::Branch => Instruction::SB(instruction),
        Opcode::Store | Opcode::StoreFP => Instruction::S(instruction),
    }
}

impl Opcode {
    /// The opcode a seven-bit value names; `None` for the values the
    /// encoding leaves unassigned.
    pub fn from_u8(opcode: u8) -> (r: Option<Opcode>)
        ensures
            r == spec_opcode_from_u8(opcode),
    {
        match opcode {
            0x03 => Some(Opcode::Load),
            0x07 => Some(Opcode::LoadFP),
            0x0F => Some(Opcode::MiscMem),
            0x13 => Some(Opcode::OpImm),
            0x17 => Some(Opcode::Auipc),
            0x1B => Some(Opcode::OpImm32),
            0x23 => Some(Opcode::Store),
            0x27 => Some(Opcode::StoreFP),
            0x2F => Some(Opcode::Amo),
            0x33 => Some(Opcode::Op),
            0x37 => Some(Opcode::Lui),
            0x3B => Some(Opcode::Op32),
            0x43 => Some(Opcode::Madd),
            0x47 => Some(Opcode::Msub),
            0x4B => Some(Opcode::Nmsub),
            0x4F => Some(Opcode::Nmadd),
            0x53 => Some(Opcode::OpFp),
            0x63 => Some(Opcode::Branch),
            0x67 => Some(Opcode::Jalr),
            0x6F => Some(Opcode::Jal),
            0x73 => Some(Opcode::System),
            _ => None,
        }
    }

    /// Wraps a word in the encoding shape this opcode selects.
    pub fn parse_instruction(&self, instruction: u32) -> (r: Instruction)
        ensures
            r == spec_parse_instruction(*self, instruction),
    {
        match *self {
            Opcode::OpImm | Opcode::OpImm32 | Opcode::Jalr | Opcode::Load | Opcode::LoadFP
                | Opcode::MiscMem | Opcode::System => Instruction::I(instruction),
            Opcode::Lui | Opcode::Auipc => Instruction::U(instruction),
            Opcode::Op | Opcode::Op32 | Opcode::OpFp | Opcode::Amo | Opcode::Madd | Opcode::Msub
                | Opcode::Nmadd | Opcode::Nmsub => Instruction::R(instruction),
            Opcode::Jal => Instruction::UJ(instruction),
            Opcode::Branch => Instruction::SB(instruction),
            Opcode::Store | Opcode::StoreFP => Instruction::S(instruction),
        }
    }
}

} // verus!
