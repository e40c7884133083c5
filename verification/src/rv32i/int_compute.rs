//! Integer computation: register-immediate and register-register
//! arithmetic, logic and shifts, and the two upper-immediate operations.

use crate::bits::{lemma_cast_i32, lemma_u32_i32_roundtrip, sg, sra32};
use crate::cpu::CPU;
use crate::encoding;
use crate::machine::{MachineView, StepView};
use vstd::prelude::*;

verus! {

/// The register-immediate operations.
#[derive(Clone, Copy, Debug, PartialEq, Eq, Structural)]
pub enum ImmediateOperationType {
    Add,
    SetLessThan,
    SetLessThanUnsigned,
    And,
    Or,
    Xor,
    ShiftLeftLogical,
    ShiftRightLogical,
    ShiftRightArithmetic,
}

/// The value a register-immediate operation computes from the source
/// register and the sign-extended immediate. Addition wraps; the
/// comparisons yield 0 or 1; the shifts take the low five bits of the
/// immediate as their amount.
pub open spec fn spec_op_imm_value(t: ImmediateOperationType, src: u32, imm: i32) -> u32 {
    match t {
        ImmediateOperationType::Add => src.wrapping_add(imm as u32),
        ImmediateOperationType::SetLessThan => if sg(src) < imm as int {
            1u32
        } else {
            0u32
        },
        ImmediateOperationType::SetLessThanUnsigned => if src < imm as u32 {
            1u32
        } else {
            0u32
        },
        ImmediateOperationType::And => src & (imm as u32),
        ImmediateOperationType::Or => src | (imm as u32),
        ImmediateOperationType::Xor => src ^ (imm as u32),
        ImmediateOperationType::ShiftLeftLogical => src << ((imm as u32) % 32),
        ImmediateOperationType::ShiftRightLogical => src >> ((imm as u32) % 32),
        ImmediateOperationType::ShiftRightArithmetic => sra32(src, (imm as u32) % 32),
    }
}

/// A register-immediate computation.
#[derive(Clone, Copy, Debug)]
pub struct OpImm {
    pub typ: ImmediateOperationType,
    pub dest: u8,
    pub src: u8,
    pub immediate: i32,
}

impl OpImm {
    /// What a word decodes to under the immediate shape, if it carries
    /// the register-immediate opcode. For the right-shift minor opcode,
    /// bit 10 of the immediate field (bit 30 of the word) selects the
    /// arithmetic shift.
    pub open spec fn spec_parse(w: u32) -> Option<OpImm> {
        if encoding::spec_opcode(w) != 0x13 {
            None
        } else {
            let f3 = encoding::spec_funct3(w);
            let imm = encoding::spec_i_imm(w) as i32;
            let typ = if f3 == 0 {
                Some(ImmediateOperationType::Add)
            } else if f3 == 1 {
                Some(ImmediateOperationType::ShiftLeftLogical)
            } else if f3 == 2 {
                Some(ImmediateOperationType::SetLessThan)
            } else if f3 == 3 {
                Some(ImmediateOperationType::SetLessThanUnsigned)
            } else if f3 == 4 {
                Some(ImmediateOperationType::Xor)
            } else if f3 == 5 {
                if imm & (1i32 << 10) == 0 {
                    Some(ImmediateOperationType::ShiftRightLogical)
                } else {
                    Some(ImmediateOperationType::ShiftRightArithmetic)
                }
            } else if f3 == 6 {
                Some(ImmediateOperationType::Or)
            } else {
                Some(ImmediateOperationType::And)
            };
            match typ {
                Some(t) => Some(
                    OpImm {
                        typ: t,
                        dest: encoding::spec_rd(w),
                        src: encoding::spec_rs1(w),
                        immediate: imm,
                    },
                ),
                None => None,
            }
        }
    }

    /// Register indices stay inside the register file.
    pub open spec fn wf(self) -> bool {
        self.dest < 32 && self.src < 32
    }

    /// Decodes a register-immediate computation, or nothing when the
    /// opcode differs.
    pub fn parse(instruction: u32) -> (r: Option<OpImm>)
        ensures
            r == Self::spec_parse(instruction),
            r matches Some(o) ==> o.wf(),
    {
        proof {
            encoding::lemma_field_bounds(instruction);
        }
        let decoded = encoding::I::parse(instruction);
        if decoded.opcode != 0x13 {
            return None;
        }
        let typ = match decoded.funct3 {
            0b000 => ImmediateOperationType::Add,
            0b001 => ImmediateOperationType::ShiftLeftLogical,
            0b010 => ImmediateOperationType::SetLessThan,
            0b011 => ImmediateOperationType::SetLessThanUnsigned,
            0b100 => ImmediateOperationType::Xor,
            0b101 => {
                if decoded.immediate & (1i32 << 10) == 0 {
                    ImmediateOperationType::ShiftRightLogical
                } else {
                    ImmediateOperationType::ShiftRightArithmetic
                }
            },
            0b110 => ImmediateOperationType::Or,
            _ => ImmediateOperationType::And,
        };
        Some(OpImm { typ, dest: decoded.rd, src: decoded.rs1, immediate: decoded.immediate })
    }

    /// The computation's effect: the destination register takes the
    /// operation's value; nothing else changes.
    pub open spec fn effect(self, m: MachineView) -> StepView {
        StepView::quiet(
            m.write_reg(
                self.dest as int,
                spec_op_imm_value(self.typ, m.regs[self.src as int], self.immediate),
            ),
        )
    }

    /// Applies the computation to the processor.
    pub fn execute(&self, cpu: &mut CPU)
        requires
            old(cpu)@.wf(),
            self.wf(),
        ensures
            final(cpu)@ == self.effect(old(cpu)@).m,
            final(cpu)@.wf(),
    {
        let src = cpu.get_register(self.src);
        proof {
            lemma_cast_i32(src);
        }
        let sh: u32 = (self.immediate as u32) % 32;
        let value: u32 = match self.typ {
            ImmediateOperationType::Add => src.wrapping_add(self.immediate as u32),
            ImmediateOperationType::SetLessThan => if (src as i32) < self.immediate {
                1
            } else {
                0
            },
            ImmediateOperationType::SetLessThanUnsigned => if src < (self.immediate as u32) {
                1
            } else {
                0
            },
            ImmediateOperationType::And => src & (self.immediate as u32),
            ImmediateOperationType::Or => src | (self.immediate as u32),
            ImmediateOperationType::Xor => src ^ (self.immediate as u32),
            ImmediateOperationType::ShiftLeftLogical => src << sh,
            ImmediateOperationType::ShiftRightLogical => src >> sh,
            ImmediateOperationType::ShiftRightArithmetic => {
                if src >= 0x8000_0000 {
                    (src >> sh) | !(0xFFFF_FFFFu32 >> sh)
                } else {
                    src >> sh
                }
            },
        };
        cpu.set_register(self.dest, value);
    }

    /// The word the computation re-encodes to. The arithmetic right
    /// shift re-asserts its selector bit, which decoding had already
    /// found set.
    pub open spec fn spec_to_raw(self) -> u32 {
        encoding::spec_i_raw(
            encoding::I {
                opcode: 0x13,
                funct3: spec_op_imm_funct3(self.typ),
                rd: self.dest,
                rs1: self.src,
                immediate: if self.typ == ImmediateOperationType::ShiftRightArithmetic {
                    self.immediate | (1i32 << 10)
                } else {
                    self.immediate
                },
            },
        )
    }

    /// Re-encodes the computation along the immediate shape.
    pub fn to_raw(&self) -> (r: u32)
        requires
            self.wf(),
        ensures
            r == self.spec_to_raw(),
    {
        let funct3: u8 = match self.typ {
            ImmediateOperationType::Add => 0b000,
            ImmediateOperationType::ShiftLeftLogical => 0b001,
            ImmediateOperationType::SetLessThan => 0b010,
            ImmediateOperationType::SetLessThanUnsigned => 0b011,
            ImmediateOperationType::Xor => 0b100,
            ImmediateOperationType::ShiftRightLogical => 0b101,
            ImmediateOperationType::ShiftRightArithmetic => 0b101,
            ImmediateOperationType::Or => 0b110,
            ImmediateOperationType::And => 0b111,
        };
        let immediate: i32 = if matches!(self.typ, ImmediateOperationType::ShiftRightArithmetic) {
            self.immediate | (1i32 << 10)
        } else {
            self.immediate
        };
        encoding::I {
            opcode: 0x13,
            funct3,
            rd: self.dest,
            rs1: self.src,
            immediate,
        }.to_raw()
    }
}

/// The minor opcode each register-immediate operation encodes to; both
/// right shifts share one value and differ in the immediate's bit 10.
pub open spec fn spec_op_imm_funct3(t: ImmediateOperationType) -> u8 {
    match t {
        ImmediateOperationType::Add => 0,
        ImmediateOperationType::ShiftLeftLogical => 1,
        ImmediateOperationType::SetLessThan => 2,
        ImmediateOperationType::SetLessThanUnsigned => 3,
        ImmediateOperationType::Xor => 4,
        ImmediateOperationType::ShiftRightLogical => 5,
        ImmediateOperationType::ShiftRightArithmetic => 5,
        ImmediateOperationType::Or => 6,
        ImmediateOperationType::And => 7,
    }
}

/// The register-register operations of the base set.
#[derive(Clone, Copy, Debug, PartialEq, Eq, Structural)]
pub enum OperationType {
    Add,
    Sub,
    SetLessThan,
    SetLessThanUnsigned,
    And,
    Or,
    Xor,
    ShiftLeftLogical,
    ShiftRightLogical,
    ShiftRightArithmetic,
}

/// The value a register-register operation computes. Addition and
/// subtraction wrap; the comparisons yield 0 or 1; the shifts take the
/// low five bits of the second operand as their amount.
pub open spec fn spec_op_value(t: OperationType, a: u32, b: u32) -> u32 {
    match t {
        OperationType::Add => a.wrapping_add(b),
        OperationType::Sub => a.wrapping_sub(b),
        OperationType::SetLessThan => if sg(a) < sg(b) {
            1u32
        } else {
            0u32
        },
        OperationType::SetLessThanUnsigned => if a < b {
            1u32
        } else {
            0u32
        },
        OperationType::And => a & b,
        OperationType::Or => a | b,
        OperationType::Xor => a ^ b,
        OperationType::ShiftLeftLogical => a << (b % 32),
        OperationType::ShiftRightLogical => a >> (b % 32),
        OperationType::ShiftRightArithmetic => sra32(a, b % 32),
    }
}

/// A register-register computation.
#[derive(Clone, Copy, Debug)]
pub struct Op {
    pub typ: OperationType,
    pub dest: u8,
    pub src1: u8,
    pub src2: u8,
}

impl Op {
    /// What a word decodes to under the register-register shape, if it
    /// carries the register-register opcode and a base-set function
    /// pair.
    pub open spec fn spec_parse(w: u32) -> Option<Op> {
        if encoding::spec_opcode(w) != 0x33 {
            None
        } else {
            let f7 = encoding::spec_funct7(w);
            let f3 = encoding::spec_funct3(w);
            let typ = if f7 == 0 && f3 == 0 {
                Some(OperationType::Add)
            } else if f7 == 0x20 && f3 == 0 {
                Some(OperationType::Sub)
            } else if f7 == 0 && f3 == 1 {
                Some(OperationType::ShiftLeftLogical)
            } else if f7 == 0 && f3 == 2 {
                Some(OperationType::SetLessThan)
            } else if f7 == 0 && f3 == 3 {
                Some(OperationType::SetLessThanUnsigned)
            } else if f7 == 0 && f3 == 4 {
                Some(OperationType::Xor)
            } else if f7 == 0 && f3 == 5 {
                Some(OperationType::ShiftRightLogical)
            } else if f7 == 0x20 && f3 == 5 {
                Some(OperationType::ShiftRightArithmetic)
            } else if f7 == 0 && f3 == 6 {
                Some(OperationType::Or)
            } else if f7 == 0 && f3 == 7 {
                Some(OperationType::And)
            } else {
                None
            };
            match typ {
                Some(t) => Some(
                    Op {
                        typ: t,
                        dest: encoding::spec_rd(w),
                        src1: encoding::spec_rs1(w),
                        src2: encoding::spec_rs2(w),
                    },
                ),
                None => None,
            }
        }
    }

    /// Register indices stay inside the register file.
    pub open spec fn wf(self) -> bool {
        self.dest < 32 && self.src1 < 32 && self.src2 < 32
    }

    /// Decodes a base-set register-register computation, or nothing when
    /// the opcode or the function pair differs.
    pub fn parse(instruction: u32) -> (r: Option<Op>)
        ensures
            r == Self::spec_parse(instruction),
            r matches Some(o) ==> o.wf(),
    {
        proof {
            encoding::lemma_field_bounds(instruction);
        }
        let decoded = encoding::R::parse(instruction);
        if decoded.opcode != 0x33 {
            return None;
        }
        let typ = match (decoded.funct7, decoded.funct3) {
            (0, 0b000) => OperationType::Add,
            (0x20, 0b000) => OperationType::Sub,
            (0, 0b001) => OperationType::ShiftLeftLogical,
            (0, 0b010) => OperationType::SetLessThan,
            (0, 0b011) => OperationType::SetLessThanUnsigned,
            (0, 0b100) => OperationType::Xor,
            (0, 0b101) => OperationType::ShiftRightLogical,
            (0x20, 0b101) => OperationType::ShiftRightArithmetic,
            (0, 0b110) => OperationType::Or,
            (0, 0b111) => OperationType::And,
            _ => {
                return None;
            },
        };
        Some(Op { typ, dest: decoded.rd, src1: decoded.rs1, src2: decoded.rs2 })
    }

    /// The computation's effect: the destination register takes the
    /// operation's value; nothing else changes.
    pub open spec fn effect(self, m: MachineView) -> StepView {
        StepView::quiet(
            m.write_reg(
                self.dest as int,
                spec_op_value(self.typ, m.regs[self.src1 as int], m.regs[self.src2 as int]),
            ),
        )
    }

    /// Applies the computation to the processor.
    pub fn execute(&self, cpu: &mut CPU)
        requires
            old(cpu)@.wf(),
            self.wf(),
        ensures
            final(cpu)@ == self.effect(old(cpu)@).m,
            final(cpu)@.wf(),
    {
        let src1 = cpu.get_register(self.src1);
        let src2 = cpu.get_register(self.src2);
        proof {
            lemma_cast_i32(src1);
            lemma_cast_i32(src2);
        }
        let sh: u32 = src2 % 32;
        let value: u32 = match self.typ {
            OperationType::Add => src1.wrapping_add(src2),
            OperationType::Sub => src1.wrapping_sub(src2),
            OperationType::SetLessThan => if (src1 as i32) < (src2 as i32) {
                1
            } else {
                0
            },
            OperationType::SetLessThanUnsigned => if src1 < src2 {
                1
            } else {
                0
            },
            OperationType::And => src1 & src2,
            OperationType::Or => src1 | src2,
            OperationType::Xor => src1 ^ src2,
            OperationType::ShiftLeftLogical => src1 << sh,
            OperationType::ShiftRightLogical => src1 >> sh,
            OperationType::ShiftRightArithmetic => {
                if src1 >= 0x8000_0000 {
                    (src1 >> sh) | !(0xFFFF_FFFFu32 >> sh)
                } else {
                    src1 >> sh
                }
            },
        };
        cpu.set_register(self.dest, value);
    }

    /// The word the computation re-encodes to.
    pub open spec fn spec_to_raw(self) -> u32 {
        encoding::spec_r_raw(
            encoding::R {
                opcode: 0x33,
                funct3: spec_op_funct3(self.typ),
                funct7: spec_op_funct7(self.typ),
                rd: self.dest,
                rs1: self.src1,
                rs2: self.src2,
            },
        )
    }

    /// Re-encodes the computation along the register-register shape.
    pub fn to_raw(&self) -> (r: u32)
        requires
            self.wf(),
        ensures
            r == self.spec_to_raw(),
    {
        let funct3: u8 = match self.typ {
            OperationType::Add => 0b000,
            OperationType::Sub => 0b000,
            OperationType::ShiftLeftLogical => 0b001,
            OperationType::SetLessThan => 0b010,
            OperationType::SetLessThanUnsigned => 0b011,
            OperationType::Xor => 0b100,
            OperationType::ShiftRightLogical => 0b101,
            OperationType::ShiftRightArithmetic => 0b101,
            OperationType::Or => 0b110,
            OperationType::And => 0b111,
        };
        let funct7: u8 = match self.typ {
            OperationType::Sub | OperationType::ShiftRightArithmetic => 0x20,
            _ => 0x00,
        };
        encoding::R {
            opcode: 0x33,
            funct3,
            funct7,
            rd: self.dest,
            rs1: self.src1,
            rs2: self.src2,
        }.to_raw()
    }
}

/// The minor opcode each base register-register operation encodes to.
pub open spec fn spec_op_funct3(t: OperationType) -> u8 {
    match t {
        OperationType::Add => 0,
        OperationType::Sub => 0,
        OperationType::ShiftLeftLogical => 1,
        OperationType::SetLessThan => 2,
        OperationType::SetLessThanUnsigned => 3,
        OperationType::Xor => 4,
        OperationType::ShiftRightLogical => 5,
        OperationType::ShiftRightArithmetic => 5,
        OperationType::Or => 6,
        OperationType::And => 7,
    }
}

/// The function field each base register-register operation encodes to:
/// subtraction and the arithmetic shift set bit 30.
pub open spec fn spec_op_funct7(t: OperationType) -> u8 {
    match t {
        OperationType::Sub => 0x20,
        OperationType::ShiftRightArithmetic => 0x20,
        _ => 0,
    }
}

/// Loads an upper immediate: the destination takes the immediate, whose
/// low 12 bits are zero.
#[derive(Clone, Copy, Debug)]
pub struct Lui {
    pub dest: u8,
    pub immediate: u32,
}

impl Lui {
    /// What a word decodes to under the upper-immediate shape, if it
    /// carries the load-upper opcode.
    pub open spec fn spec_parse(w: u32) -> Option<Lui> {
        if encoding::spec_opcode(w) != 0x37 {
            None
        } else {
            Some(Lui { dest: encoding::spec_rd(w), immediate: encoding::spec_u_imm(w) })
        }
    }

    /// Register indices stay inside the register file.
    pub open spec fn wf(self) -> bool {
        self.dest < 32
    }

    /// Decodes a load-upper-immediate, or nothing when the opcode
    /// differs.
    pub fn parse(instruction: u32) -> (r: Option<Lui>)
        ensures
            r == Self::spec_parse(instruction),
            r matches Some(l) ==> l.wf(),
    {
        proof {
            encoding::lemma_field_bounds(instruction);
            lemma_u32_i32_roundtrip(encoding::spec_u_imm(instruction));
        }
        let decoded = encoding::U::parse(instruction);
        if decoded.opcode != 0x37 {
            return None;
        }
        Some(Lui { dest: decoded.rd, immediate: decoded.immediate as u32 })
    }

    /// The operation's effect: the destination takes the immediate.
    pub open spec fn effect(self, m: MachineView) -> StepView {
        StepView::quiet(m.write_reg(self.dest as int, self.immediate))
    }

    /// Applies the operation to the processor.
    pub fn execute(&self, cpu: &mut CPU)
        requires
            old(cpu)@.wf(),
            self.wf(),
        ensures
            final(cpu)@ == self.effect(old(cpu)@).m,
            final(cpu)@.wf(),
    {
        cpu.set_register(self.dest, self.immediate);
    }

    /// The word the operation re-encodes to.
    pub open spec fn spec_to_raw(self) -> u32 {
        encoding::spec_u_raw(
            encoding::U { opcode: 0x37, rd: self.dest, immediate: self.immediate as i32 },
        )
    }

    /// Re-encodes the operation along the upper-immediate shape.
    pub fn to_raw(&self) -> (r: u32)
        requires
            self.wf(),
        ensures
            r == self.spec_to_raw(),
    {
        encoding::U { opcode: 0x37, rd: self.dest, immediate: self.immediate as i32 }.to_raw()
    }
}

/// Adds an upper immediate to the program counter.
#[derive(Clone, Copy, Debug)]
pub struct Auipc {
    pub dest: u8,
    pub immediate: u32,
}

impl Auipc {
    /// What a word decodes to under the upper-immediate shape, if it
    /// carries the add-upper-to-pc opcode.
    pub open spec fn spec_parse(w: u32) -> Option<Auipc> {
        if encoding::spec_opcode(w) != 0x17 {
            None
        } else {
            Some(Auipc { dest: encoding::spec_rd(w), immediate: encoding::spec_u_imm(w) })
        }
    }

    /// Register indices stay inside the register file.
    pub open spec fn wf(self) -> bool {
        self.dest < 32
    }

    /// Decodes an add-upper-to-pc, or nothing when the opcode differs.
    pub fn parse(instruction: u32) -> (r: Option<Auipc>)
        ensures
            r == Self::spec_parse(instruction),
            r matches Some(a) ==> a.wf(),
    {
        proof {
            encoding::lemma_field_bounds(instruction);
            lemma_u32_i32_roundtrip(encoding::spec_u_imm(instruction));
        }
        let decoded = encoding::U::parse(instruction);
        if decoded.opcode != 0x17 {
            return None;
        }
        Some(Auipc { dest: decoded.rd, immediate: decoded.immediate as u32 })
    }

    /// The operation's effect: the destination takes the program counter
    /// plus the immediate, wrapping.
    pub open spec fn effect(self, m: MachineView) -> StepView {
        StepView::quiet(m.write_reg(self.dest as int, m.pc.wrapping_add(self.immediate)))
    }

    /// Applies the operation to the processor.
    pub fn execute(&self, cpu: &mut CPU)
        requires
            old(cpu)@.wf(),
            self.wf(),
        ensures
            final(cpu)@ == self.effect(old(cpu)@).m,
            final(cpu)@.wf(),
    {
        let result = cpu.get_pc().wrapping_add(self.immediate);
        cpu.set_register(self.dest, result);
    }

    /// The word the operation re-encodes to.
    pub open spec fn spec_to_raw(self) -> u32 {
        encoding::spec_u_raw(
            encoding::U { opcode: 0x17, rd: self.dest, immediate: self.immediate as i32 },
        )
    }

    /// Re-encodes the operation along the upper-immediate shape.
    pub fn to_raw(&self) -> (r: u32)
        requires
            self.wf(),
        ensures
            r == self.spec_to_raw(),
    {
        encoding::U { opcode: 0x17, rd: self.dest, immediate: self.immediate as i32 }.to_raw()
    }
}

/// The wrapping ring laws of the word: addition is commutative and
/// associative modulo 2^32, and subtraction undoes it.
pub proof fn lemma_add_ring(a: u32, b: u32, c: u32)
    ensures
        spec_op_value(OperationType::Add, a, b) == spec_op_value(OperationType::Add, b, a),
        spec_op_value(OperationType::Add, spec_op_value(OperationType::Add, a, b), c)
            == spec_op_value(OperationType::Add, a, spec_op_value(OperationType::Add, b, c)),
        spec_op_value(OperationType::Sub, spec_op_value(OperationType::Add, a, b), b) == a,
        spec_op_value(OperationType::Add, spec_op_value(OperationType::Sub, a, b), b) == a,
{
}

/// Shift amounts are taken modulo 32: shifting by any amount equals
/// shifting by its remainder.
pub proof fn lemma_shift_amount_mod32(a: u32, b: u32)
    ensures
        spec_op_value(OperationType::ShiftLeftLogical, a, b) == spec_op_value(
            OperationType::ShiftLeftLogical,
            a,
            b % 32,
        ),
        spec_op_value(OperationType::ShiftRightLogical, a, b) == spec_op_value(
            OperationType::ShiftRightLogical,
            a,
            b % 32,
        ),
{
}

/// Decoding a register-immediate word and re-encoding its fields gives
/// the word back.
pub proof fn lemma_op_imm_roundtrip(w: u32, op: OpImm)
    requires
        OpImm::spec_parse(w) == Some(op),
    ensures
        op.spec_to_raw() == w,
{
    encoding::lemma_field_bounds(w);
    encoding::lemma_i_roundtrip(w);
    assert(op.typ == ImmediateOperationType::ShiftRightArithmetic ==> (op.immediate | (1i32
        << 10)) == op.immediate) by {
        let i = op.immediate;
        assert(i & (1i32 << 10) != 0 ==> (i | (1i32 << 10)) == i) by (bit_vector);
    }
}

/// Decoding a register-register word and re-encoding its fields gives
/// the word back.
pub proof fn lemma_op_roundtrip(w: u32, op: Op)
    requires
        Op::spec_parse(w) == Some(op),
    ensures
        op.spec_to_raw() == w,
{
    encoding::lemma_field_bounds(w);
    encoding::lemma_r_roundtrip(w);
}

/// Decoding an upper-immediate word and re-encoding its fields gives
/// the word back, for both upper-immediate operations.
pub proof fn lemma_upper_roundtrip(w: u32, lui: Lui, auipc: Auipc)
    ensures
        Lui::spec_parse(w) == Some(lui) ==> lui.spec_to_raw() == w,
        Auipc::spec_parse(w) == Some(auipc) ==> auipc.spec_to_raw() == w,
{
    encoding::lemma_field_bounds(w);
    encoding::lemma_u_roundtrip(w);
    let u = encoding::spec_u_imm(w);
    lemma_u32_i32_roundtrip(u);
    assert((w & 0xFFFF_F000) & 0xFFFF_F000 == w & 0xFFFF_F000) by (bit_vector);
}

} // verus!
