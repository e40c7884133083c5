//! Unconditional jumps and conditional branches.
//!
//! All three leave the program counter four short of the target: the
//! executor advances the counter by four after every operation, so the
//! next fetch lands exactly on the target.

use crate::bits::{lemma_cast_i32, sg};
use crate::cpu::CPU;
use crate::encoding;
use crate::machine::{MachineView, StepView};
use vstd::prelude::*;

verus! {

/// A jump-and-link: stores the return address and transfers to a
/// pc-relative target.
#[derive(Clone, Copy, Debug)]
pub struct Jal {
    pub dest: u8,
    pub offset: i32,
}

impl Jal {
    /// What a word decodes to under the jump shape, if it carries the
    /// jump opcode.
    pub open spec fn spec_parse(w: u32) -> Option<Jal> {
        if encoding::spec_opcode(w) != 0x6F {
            None
        } else {
            Some(Jal { dest: encoding::spec_rd(w), offset: encoding::spec_j_imm(w) as i32 })
        }
    }

    /// Register indices stay inside the register file.
    pub open spec fn wf(self) -> bool {
        self.dest < 32
    }

    /// Decodes a jump-and-link, or nothing when the opcode differs.
    pub fn parse(instruction: u32) -> (r: Option<Jal>)
        ensures
            r == Self::spec_parse(instruction),
            r matches Some(j) ==> j.wf(),
    {
        proof {
            encoding::lemma_field_bounds(instruction);
        }
        let decoded = encoding::UJ::parse(instruction);
        if decoded.opcode != 0x6F {
            return None;
        }
        Some(Jal { dest: decoded.rd, offset: decoded.immediate })
    }

    /// The jump's effect: the link register takes the address of the
    /// following instruction, and control moves to the target, the
    /// current counter plus the offset, wrapping.
    pub open spec fn effect(self, m: MachineView) -> StepView {
        let link = m.pc.wrapping_add(4);
        let target = m.pc.wrapping_add(self.offset as u32);
        StepView::quiet(m.write_reg(self.dest as int, link).with_pc(target.wrapping_sub(4)))
    }

    /// Applies the jump to the processor.
    pub fn execute(&self, cpu: &mut CPU)
        requires
            old(cpu)@.wf(),
            self.wf(),
        ensures
            final(cpu)@ == self.effect(old(cpu)@).m,
            final(cpu)@.wf(),
    {
        let jump_back_target = cpu.get_pc().wrapping_add(4);
        cpu.set_register(self.dest, jump_back_target);
        let target = cpu.get_pc().wrapping_add(self.offset as u32);
        cpu.set_pc(target.wrapping_sub(4));
    }
}

/// A jump through a register: stores the return address and transfers to
/// a base register plus an offset, with the low bit cleared.
#[derive(Clone, Copy, Debug)]
pub struct Jalr {
    pub dest: u8,
    pub base: u8,
    pub offset: i32,
}

impl Jalr {
    /// What a word decodes to under the immediate shape, if it carries
    /// the register-jump opcode and its single minor opcode.
    pub open spec fn spec_parse(w: u32) -> Option<Jalr> {
        if encoding::spec_opcode(w) != 0x67 || encoding::spec_funct3(w) != 0 {
            None
        } else {
            Some(
                Jalr {
                    dest: encoding::spec_rd(w),
                    base: encoding::spec_rs1(w),
                    offset: encoding::spec_i_imm(w) as i32,
                },
            )
        }
    }

    /// Register indices stay inside the register file.
    pub open spec fn wf(self) -> bool {
        self.dest < 32 && self.base < 32
    }

    /// Decodes a register jump, or nothing when the opcode or minor
    /// opcode differs.
    pub fn parse(instruction: u32) -> (r: Option<Jalr>)
        ensures
            r == Self::spec_parse(instruction),
            r matches Some(j) ==> j.wf(),
    {
        proof {
            encoding::lemma_field_bounds(instruction);
        }
        let decoded = encoding::I::parse(instruction);
        if decoded.opcode != 0x67 {
            return None;
        }
        if decoded.funct3 != 0 {
            return None;
        }
        Some(Jalr { dest: decoded.rd, base: decoded.rs1, offset: decoded.immediate })
    }

    /// The jump's effect: the target is the base register plus the
    /// offset with the low bit cleared, read before the link register is
    /// written, so a jump whose base and destination coincide still uses
    /// the old base.
    pub open spec fn effect(self, m: MachineView) -> StepView {
        let base = m.regs[self.base as int];
        let link = m.pc.wrapping_add(4);
        let target = base.wrapping_add(self.offset as u32) & 0xFFFF_FFFE;
        StepView::quiet(m.write_reg(self.dest as int, link).with_pc(target.wrapping_sub(4)))
    }

    /// Applies the register jump to the processor.
    pub fn execute(&self, cpu: &mut CPU)
        requires
            old(cpu)@.wf(),
            self.wf(),
        ensures
            final(cpu)@ == self.effect(old(cpu)@).m,
            final(cpu)@.wf(),
    {
        let base = cpu.get_register(self.base);
        let jump_back_target = cpu.get_pc().wrapping_add(4);
        cpu.set_register(self.dest, jump_back_target);
        let target = base.wrapping_add(self.offset as u32) & 0xFFFF_FFFE;
        cpu.set_pc(target.wrapping_sub(4));
    }
}

/// The six branch conditions.
#[derive(Clone, Copy, Debug)]
pub enum BranchType {
    Equals,
    NotEquals,
    LessThan,
    LessThanUnsigned,
    GreaterOrEqual,
    GreaterOrEqualUnsigned,
}

/// Whether a branch condition holds of two register values: bitwise for
/// equality, two's-complement for the signed orders, plain for the
/// unsigned ones.
pub open spec fn spec_branch_taken(t: BranchType, a: u32, b: u32) -> bool {
    match t {
        BranchType::Equals => a == b,
        BranchType::NotEquals => a != b,
        BranchType::LessThan => sg(a) < sg(b),
        BranchType::GreaterOrEqual => sg(a) >= sg(b),
        BranchType::LessThanUnsigned => a < b,
        BranchType::GreaterOrEqualUnsigned => a >= b,
    }
}

/// A conditional branch: compares two registers and moves control by a
/// pc-relative offset when the comparison holds.
#[derive(Clone, Copy, Debug)]
pub struct Branch {
    pub typ: BranchType,
    pub src1: u8,
    pub src2: u8,
    pub offset: i32,
}

impl Branch {
    /// What a word decodes to under the branch shape, if it carries the
    /// branch opcode and one of the six valid conditions.
    pub open spec fn spec_parse(w: u32) -> Option<Branch> {
        if encoding::spec_opcode(w) != 0x63 {
            None
        } else {
            let f3 = encoding::spec_funct3(w);
            if f3 == 0 || f3 == 1 || f3 == 4 || f3 == 5 || f3 == 6 || f3 == 7 {
                let typ = if f3 == 0 {
                    BranchType::Equals
                } else if f3 == 1 {
                    BranchType::NotEquals
                } else if f3 == 4 {
                    BranchType::LessThan
                } else if f3 == 5 {
                    BranchType::GreaterOrEqual
                } else if f3 == 6 {
                    BranchType::LessThanUnsigned
                } else {
                    BranchType::GreaterOrEqualUnsigned
                };
                Some(
                    Branch {
                        typ,
                        src1: encoding::spec_rs1(w),
                        src2: encoding::spec_rs2(w),
                        offset: encoding::spec_b_imm(w) as i32,
                    },
                )
            } else {
                None
            }
        }
    }

    /// Register indices stay inside the register file.
    pub open spec fn wf(self) -> bool {
        self.src1 < 32 && self.src2 < 32
    }

    /// Decodes a branch, or nothing when the opcode differs or the
    /// condition field is one of the two unassigned values.
    pub fn parse(instruction: u32) -> (r: Option<Branch>)
        ensures
            r == Self::spec_parse(instruction),
            r matches Some(b) ==> b.wf(),
    {
        proof {
            encoding::lemma_field_bounds(instruction);
        }
        let decoded = encoding::SB::parse(instruction);
        if decoded.opcode != 0x63 {
            return None;
        }
        let typ = match decoded.funct3 {
            0b000 => BranchType::Equals,
            0b001 => BranchType::NotEquals,
            0b100 => BranchType::LessThan,
            0b101 => BranchType::GreaterOrEqual,
            0b110 => BranchType::LessThanUnsigned,
            0b111 => BranchType::GreaterOrEqualUnsigned,
            _ => {
                return None;
            },
        };
        Some(
            Branch { typ, src1: decoded.rs1, src2: decoded.rs2, offset: decoded.immediate },
        )
    }

    /// The branch's effect: when the condition holds of the two source
    /// registers, control moves to the current counter plus the offset,
    /// wrapping; otherwise nothing changes.
    pub open spec fn effect(self, m: MachineView) -> StepView {
        if spec_branch_taken(self.typ, m.regs[self.src1 as int], m.regs[self.src2 as int]) {
            StepView::quiet(m.with_pc(m.pc.wrapping_add(self.offset as u32).wrapping_sub(4)))
        } else {
            StepView::quiet(m)
        }
    }

    /// Applies the branch to the processor.
    pub fn execute(&self, cpu: &mut CPU)
        requires
            old(cpu)@.wf(),
            self.wf(),
        ensures
            final(cpu)@ == self.effect(old(cpu)@).m,
            final(cpu)@.wf(),
    {
        let src1 = cpu.get_register(self.src1);
        let src2 = cpu.get_register(self.src2);
        proof {
            lemma_cast_i32(src1);
            lemma_cast_i32(src2);
        }
        let result = match self.typ {
            BranchType::Equals => src1 == src2,
            BranchType::NotEquals => src1 != src2,
            BranchType::LessThan => (src1 as i32) < (src2 as i32),
            BranchType::GreaterOrEqual => (src1 as i32) >= (src2 as i32),
            BranchType::LessThanUnsigned => src1 < src2,
            BranchType::GreaterOrEqualUnsigned => src1 >= src2,
        };
        if result {
            let target = cpu.get_pc().wrapping_add(self.offset as u32);
            cpu.set_pc(target.wrapping_sub(4));
        }
    }
}

} // verus!
