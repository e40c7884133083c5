//! A raw instruction word tagged with its encoding shape, with accessors
//! for the fields that the shape carries.

use crate::encoding;
use crate::opcode::{spec_opcode_from_u8, Opcode};
use crate::rv32i;
use crate::rv32m;
use vstd::prelude::*;

verus! {

/// A decoded operation: the typed descriptor the executor dispatches
/// on. Each variant carries only the fields its operation needs.
#[derive(Clone, Copy, Debug)]
pub enum Operation {
    Lui(rv32i::Lui),
    Auipc(rv32i::Auipc),
    Jal(rv32i::Jal),
    Jalr(rv32i::Jalr),
    Branch(rv32i::Branch),
    Load(rv32i::Load),
    Store(rv32i::Store),
    OpImm(rv32i::OpImm),
    Op(rv32i::Op),
    MulDiv(rv32m::Op),
    System(rv32i::System),
    Fence(rv32i::Fence),
}

impl Operation {
    /// Register indices stay inside the register file.
    pub open spec fn wf(self) -> bool {
        match self {
            Operation::Lui(x) => x.wf(),
            Operation::Auipc(x) => x.wf(),
            Operation::Jal(x) => x.wf(),
            Operation::Jalr(x) => x.wf(),
            Operation::Branch(x) => x.wf(),
            Operation::Load(x) => x.wf(),
            Operation::Store(x) => x.wf(),
            Operation::OpImm(x) => x.wf(),
            Operation::Op(x) => x.wf(),
            Operation::MulDiv(x) => x.wf(),
            Operation::System(_) => true,
            Operation::Fence(_) => true,
        }
    }
}

/// What a word decodes to: the opcode picks the operation, whose own
/// decoding may still reject the word's sub-fields. The
/// register-register opcode splits on the function field between the
/// base set and the multiply/divide extension.
pub open spec fn spec_parse(w: u32) -> Option<Operation> {
    let op = encoding::spec_opcode(w);
    if op == 0x03 {
        match rv32i::Load::spec_parse(w) {
            Some(x) => Some(Operation::Load(x)),
            None => None,
        }
    } else if op == 0x0F {
        match rv32i::Fence::spec_parse(w) {
            Some(x) => Some(Operation::Fence(x)),
            None => None,
        }
    } else if op == 0x13 {
        match rv32i::OpImm::spec_parse(w) {
            Some(x) => Some(Operation::OpImm(x)),
            None => None,
        }
    } else if op == 0x17 {
        match rv32i::Auipc::spec_parse(w) {
            Some(x) => Some(Operation::Auipc(x)),
            None => None,
        }
    } else if op == 0x23 {
        match rv32i::Store::spec_parse(w) {
            Some(x) => Some(Operation::Store(x)),
            None => None,
        }
    } else if op == 0x33 {
        if encoding::spec_funct7(w) == 1 {
            match rv32m::Op::spec_parse(w) {
                Some(x) => Some(Operation::MulDiv(x)),
                None => None,
            }
        } else {
            match rv32i::Op::spec_parse(w) {
                Some(x) => Some(Operation::Op(x)),
                None => None,
            }
        }
    } else if op == 0x37 {
        match rv32i::Lui::spec_parse(w) {
            Some(x) => Some(Operation::Lui(x)),
            None => None,
        }
    } else if op == 0x63 {
        match rv32i::Branch::spec_parse(w) {
            Some(x) => Some(Operation::Branch(x)),
            None => None,
        }
    } else if op == 0x67 {
        match rv32i::Jalr::spec_parse(w) {
            Some(x) => Some(Operation::Jalr(x)),
            None => None,
        }
    } else if op == 0x6F {
        match rv32i::Jal::spec_parse(w) {
            Some(x) => Some(Operation::Jal(x)),
            None => None,
        }
    } else if op == 0x73 {
        match rv32i::System::spec_parse(w) {
            Some(x) => Some(Operation::System(x)),
            None => None,
        }
    } else {
        None
    }
}

/// Decodes a word into an operation, or nothing when the word is
/// illegal.
pub fn parse(instruction: u32) -> (r: Option<Operation>)
    ensures
        r == spec_parse(instruction),
        r matches Some(op) ==> op.wf(),
{
    let w = instruction;
    match encoding::get_opcode(w) {
        0x03 => match rv32i::Load::parse(w) {
            Some(x) => Some(Operation::Load(x)),
            None => None,
        },
        0x0F => match rv32i::Fence::parse(w) {
            Some(x) => Some(Operation::Fence(x)),
            None => None,
        },
        0x13 => match rv32i::OpImm::parse(w) {
            Some(x) => Some(Operation::OpImm(x)),
            None => None,
        },
        0x17 => match rv32i::Auipc::parse(w) {
            Some(x) => Some(Operation::Auipc(x)),
            None => None,
        },
        0x23 => match rv32i::Store::parse(w) {
            Some(x) => Some(Operation::Store(x)),
            None => None,
        },
        0x33 => {
            if encoding::get_funct7(w) == 1 {
                match rv32m::Op::parse(w) {
                    Some(x) => Some(Operation::MulDiv(x)),
                    None => None,
                }
            } else {
                match rv32i::Op::parse(w) {
                    Some(x) => Some(Operation::Op(x)),
                    None => None,
                }
            }
        },
        0x37 => match rv32i::Lui::parse(w) {
            Some(x) => Some(Operation::Lui(x)),
            None => None,
        },
        0x63 => match rv32i::Branch::parse(w) {
            Some(x) => Some(Operation::Branch(x)),
            None => None,
        },
        0x67 => match rv32i::Jalr::parse(w) {
            Some(x) => Some(Operation::Jalr(x)),
            None => None,
        },
        0x6F => match rv32i::Jal::parse(w) {
            Some(x) => Some(Operation::Jal(x)),
            None => None,
        },
        0x73 => match rv32i::System::parse(w) {
            Some(x) => Some(Operation::System(x)),
            None => None,
        },
        _ => None,
    }
}

/// A 32-bit instruction word, tagged with the encoding shape its opcode
/// selects. Fields that the shape does not encode read as `None`.
#[derive(Clone, Copy, Debug, PartialEq, Eq, Structural)]
pub enum Instruction {
    R(u32),
    I(u32),
    S(u32),
    SB(u32),
    U(u32),
    UJ(u32),
}

impl Instruction {
    /// The raw word under the tag.
    pub open spec fn spec_data(self) -> u32 {
        match self {
            Instruction::R(data) => data,
            Instruction::I(data) => data,
            Instruction::S(data) => data,
            Instruction::SB(data) => data,
            Instruction::U(data) => data,
            Instruction::UJ(data) => data,
        }
    }

    /// The sign-extended immediate, for the shapes that encode one.
    pub open spec fn spec_immediate(self) -> Option<u32> {
        match self {
            Instruction::R(_) => None,
            Instruction::I(data) => Some(encoding::spec_i_imm(data)),
            Instruction::S(data) => Some(encoding::spec_s_imm(data)),
            Instruction::SB(data) => Some(encoding::spec_b_imm(data)),
            Instruction::U(data) => Some(encoding::spec_u_imm(data)),
            Instruction::UJ(data) => Some(encoding::spec_j_imm(data)),
        }
    }

    /// The major opcode of the word, when the encoding assigns it.
    pub fn opcode(&self) -> (r: Option<Opcode>)
        ensures
            r == spec_opcode_from_u8(encoding::spec_opcode(self.spec_data())),
    {
        let opcode_val = (self.data() & 0x7F) as u8;
        Opcode::from_u8(opcode_val)
    }

    /// The sign-extended immediate, for the shapes that encode one.
    pub fn immediate(&self) -> (r: Option<u32>)
        ensures
            r == self.spec_immediate(),
    {
        proof {
            match *self {
                Instruction::R(data) => (),
                Instruction::I(data) => crate::bits::lemma_u32_i32_roundtrip(
                    encoding::spec_i_imm(data),
                ),
                Instruction::S(data) => crate::bits::lemma_u32_i32_roundtrip(
                    encoding::spec_s_imm(data),
                ),
                Instruction::SB(data) => crate::bits::lemma_u32_i32_roundtrip(
                    encoding::spec_b_imm(data),
                ),
                Instruction::U(data) => crate::bits::lemma_u32_i32_roundtrip(
                    encoding::spec_u_imm(data),
                ),
                Instruction::UJ(data) => crate::bits::lemma_u32_i32_roundtrip(
                    encoding::spec_j_imm(data),
                ),
            }
        }
        match *self {
            Instruction::R(_) => None,
            Instruction::I(data) => Some(encoding::I::parse(data).immediate as u32),
            Instruction::S(data) => Some(encoding::S::parse(data).immediate as u32),
            Instruction::SB(data) => Some(encoding::SB::parse(data).immediate as u32),
            Instruction::U(data) => Some(encoding::U::parse(data).immediate as u32),
            Instruction::UJ(data) => Some(encoding::UJ::parse(data).immediate as u32),
        }
    }

    /// The first source register field, for the shapes that encode it.
    pub fn rs1(&self) -> (r: Option<u8>)
        ensures
            r == match *self {
                Instruction::R(data) | Instruction::I(data) | Instruction::S(data)
                    | Instruction::SB(data) => Some(encoding::spec_rs1(data)),
                _ => None::<u8>,
            },
    {
        match *self {
            Instruction::R(data) | Instruction::I(data) | Instruction::S(data)
                | Instruction::SB(data) => Some(encoding::get_rs1(data)),
            _ => None,
        }
    }

    /// The second source register field, for the shapes that encode it.
    pub fn rs2(&self) -> (r: Option<u8>)
        ensures
            r == match *self {
                Instruction::R(data) | Instruction::S(data) | Instruction::SB(data) => Some(
                    encoding::spec_rs2(data),
                ),
                _ => None::<u8>,
            },
    {
        match *self {
            Instruction::R(data) | Instruction::S(data) | Instruction::SB(data) => Some(
                encoding::get_rs2(data),
            ),
            _ => None,
        }
    }

    /// The destination register field, for the shapes that encode it.
    pub fn rd(&self) -> (r: Option<u8>)
        ensures
            r == match *self {
                Instruction::R(data) | Instruction::I(data) | Instruction::U(data)
                    | Instruction::UJ(data) => Some(encoding::spec_rd(data)),
                _ => None::<u8>,
            },
    {
        match *self {
            Instruction::R(data) | Instruction::I(data) | Instruction::U(data)
                | Instruction::UJ(data) => Some(encoding::get_rd(data)),
            _ => None,
        }
    }

    /// The minor opcode, for the shapes that encode it.
    pub fn funct3(&self) -> (r: Option<u8>)
        ensures
            r == match *self {
                Instruction::R(data) | Instruction::I(data) | Instruction::S(data)
                    | Instruction::SB(data) => Some(encoding::spec_funct3(data)),
                _ => None::<u8>,
            },
    {
        match *self {
            Instruction::R(data) | Instruction::I(data) | Instruction::S(data)
                | Instruction::SB(data) => Some(encoding::get_funct3(data)),
            _ => None,
        }
    }

    /// The seven-bit function field of the register-register shape.
    pub fn funct7(&self) -> (r: Option<u8>)
        ensures
            r == match *self {
                Instruction::R(data) => Some(encoding::spec_funct7(data)),
                _ => None::<u8>,
            },
    {
        match *self {
            Instruction::R(data) => Some(encoding::get_funct7(data)),
            _ => None,
        }
    }

    /// The raw word under the tag.
    fn data(&self) -> (r: u32)
        ensures
            r == self.spec_data(),
    {
        match *self {
            Instruction::R(data) | Instruction::I(data) | Instruction::S(data)
                | Instruction::SB(data) | Instruction::U(data) | Instruction::UJ(data) => data,
        }
    }
}

} // verus!
