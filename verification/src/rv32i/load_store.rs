//! Loads and stores: little-endian byte, halfword and word accesses at a
//! base register plus a sign-extended offset. An effective address whose
//! access would leave the memory is fatal.

use crate::bits::{sext16, sext8};
use crate::cpu::CPU;
use crate::encoding;
use crate::machine::{Fault, MachineView, StepView};
use crate::ram;
use vstd::prelude::*;

verus! {

/// The load widths: signed and unsigned byte and halfword, and the word.
#[derive(Clone, Copy, Debug)]
pub enum LoadType {
    Byte,
    ByteUnsigned,
    HalfWord,
    HalfWordUnsigned,
    Word,
}

/// How many bytes a load reads.
pub open spec fn spec_load_width(t: LoadType) -> int {
    match t {
        LoadType::Byte => 1,
        LoadType::ByteUnsigned => 1,
        LoadType::HalfWord => 2,
        LoadType::HalfWordUnsigned => 2,
        LoadType::Word => 4,
    }
}

/// The register value a load produces from memory at `addr`: bytes and
/// halfwords sign-extend when signed and zero-extend otherwise.
pub open spec fn spec_load_value(t: LoadType, mem: Seq<u8>, addr: int) -> u32 {
    match t {
        LoadType::Byte => sext8(mem[addr]),
        LoadType::ByteUnsigned => mem[addr] as u32,
        LoadType::HalfWord => sext16(ram::half_at(mem, addr)),
        LoadType::HalfWordUnsigned => ram::half_at(mem, addr) as u32,
        LoadType::Word => ram::word_at(mem, addr),
    }
}

/// A load from memory into a register.
#[derive(Clone, Copy, Debug)]
pub struct Load {
    pub typ: LoadType,
    pub dest: u8,
    pub offset: i32,
    pub base: u8,
}

impl Load {
    /// What a word decodes to under the immediate shape, if it carries
    /// the load opcode and one of the five load widths.
    pub open spec fn spec_parse(w: u32) -> Option<Load> {
        if encoding::spec_opcode(w) != 0x03 {
            None
        } else {
            let f3 = encoding::spec_funct3(w);
            let typ = if f3 == 0 {
                Some(LoadType::Byte)
            } else if f3 == 1 {
                Some(LoadType::HalfWord)
            } else if f3 == 2 {
                Some(LoadType::Word)
            } else if f3 == 4 {
                Some(LoadType::ByteUnsigned)
            } else if f3 == 5 {
                Some(LoadType::HalfWordUnsigned)
            } else {
                None
            };
            match typ {
                Some(t) => Some(
                    Load {
                        typ: t,
                        dest: encoding::spec_rd(w),
                        offset: encoding::spec_i_imm(w) as i32,
                        base: encoding::spec_rs1(w),
                    },
                ),
                None => None,
            }
        }
    }

    /// Register indices stay inside the register file.
    pub open spec fn wf(self) -> bool {
        self.dest < 32 && self.base < 32
    }

    /// Decodes a load, or nothing when the opcode differs or the width
    /// field is unassigned.
    pub fn parse(instruction: u32) -> (r: Option<Load>)
        ensures
            r == Self::spec_parse(instruction),
            r matches Some(l) ==> l.wf(),
    {
        proof {
            encoding::lemma_field_bounds(instruction);
        }
        let decoded = encoding::I::parse(instruction);
        if decoded.opcode != 0x03 {
            return None;
        }
        let typ = match decoded.funct3 {
            0b000 => LoadType::Byte,
            0b001 => LoadType::HalfWord,
            0b010 => LoadType::Word,
            0b100 => LoadType::ByteUnsigned,
            0b101 => LoadType::HalfWordUnsigned,
            _ => {
                return None;
            },
        };
        Some(Load { typ, dest: decoded.rd, offset: decoded.immediate, base: decoded.rs1 })
    }

    /// The load's effect: the destination takes the value read at the
    /// base register plus the offset; an access past the end of memory
    /// is fatal and changes nothing.
    pub open spec fn effect(self, m: MachineView) -> StepView {
        let addr = m.regs[self.base as int].wrapping_add(self.offset as u32);
        if addr + spec_load_width(self.typ) <= m.mem.len() {
            StepView::quiet(
                m.write_reg(self.dest as int, spec_load_value(self.typ, m.mem, addr as int)),
            )
        } else {
            StepView::fail(m, Fault::MemoryOutOfRange)
        }
    }

    /// Applies the load to the processor.
    pub fn execute(&self, cpu: &mut CPU) -> (r: Result<(), Fault>)
        requires
            old(cpu)@.wf(),
            self.wf(),
        ensures
            final(cpu)@ == self.effect(old(cpu)@).m,
            final(cpu)@.wf(),
            r == match self.effect(old(cpu)@).fault {
                Some(f) => Err::<(), Fault>(f),
                None => Ok::<(), Fault>(()),
            },
    {
        let addr = cpu.get_register(self.base).wrapping_add(self.offset as u32);
        let width: u64 = match self.typ {
            LoadType::Byte | LoadType::ByteUnsigned => 1,
            LoadType::HalfWord | LoadType::HalfWordUnsigned => 2,
            LoadType::Word => 4,
        };
        if (addr as u64) + width > cpu.mem_len() {
            return Err(Fault::MemoryOutOfRange);
        }
        let value: u32 = match self.typ {
            LoadType::Byte => {
                let b = cpu.read_u8(addr);
                if b >= 0x80 {
                    b as u32 + 0xFFFF_FF00
                } else {
                    b as u32
                }
            },
            LoadType::ByteUnsigned => cpu.read_u8(addr) as u32,
            LoadType::HalfWord => {
                let h = cpu.read_u16(addr);
                if h >= 0x8000 {
                    h as u32 + 0xFFFF_0000
                } else {
                    h as u32
                }
            },
            LoadType::HalfWordUnsigned => cpu.read_u16(addr) as u32,
            LoadType::Word => cpu.read_u32(addr),
        };
        cpu.set_register(self.dest, value);
        Ok(())
    }
}

/// The store widths.
#[derive(Clone, Copy, Debug)]
pub enum StoreType {
    Byte,
    HalfWord,
    Word,
}

/// How many bytes a store writes.
pub open spec fn spec_store_width(t: StoreType) -> int {
    match t {
        StoreType::Byte => 1,
        StoreType::HalfWord => 2,
        StoreType::Word => 4,
    }
}

/// The memory after a store of the low bytes of `v` at `addr`; the
/// other bytes are untouched.
pub open spec fn spec_store_mem(t: StoreType, mem: Seq<u8>, addr: int, v: u32) -> Seq<u8> {
    match t {
        StoreType::Byte => mem.update(addr, (v % 0x100) as u8),
        StoreType::HalfWord => ram::store_half(mem, addr, (v % 0x1_0000) as u16),
        StoreType::Word => ram::store_word(mem, addr, v),
    }
}

/// A store of a register's low bytes into memory.
#[derive(Clone, Copy, Debug)]
pub struct Store {
    pub typ: StoreType,
    pub offset: i32,
    pub base: u8,
    pub src: u8,
}

impl Store {
    /// What a word decodes to under the store shape, if it carries the
    /// store opcode and one of the three store widths.
    pub open spec fn spec_parse(w: u32) -> Option<Store> {
        if encoding::spec_opcode(w) != 0x23 {
            None
        } else {
            let f3 = encoding::spec_funct3(w);
            let typ = if f3 == 0 {
                Some(StoreType::Byte)
            } else if f3 == 1 {
                Some(StoreType::HalfWord)
            } else if f3 == 2 {
                Some(StoreType::Word)
            } else {
                None
            };
            match typ {
                Some(t) => Some(
                    Store {
                        typ: t,
                        offset: encoding::spec_s_imm(w) as i32,
                        base: encoding::spec_rs1(w),
                        src: encoding::spec_rs2(w),
                    },
                ),
                None => None,
            }
        }
    }

    /// Register indices stay inside the register file.
    pub open spec fn wf(self) -> bool {
        self.base < 32 && self.src < 32
    }

    /// Decodes a store, or nothing when the opcode differs or the width
    /// field is unassigned.
    pub fn parse(instruction: u32) -> (r: Option<Store>)
        ensures
            r == Self::spec_parse(instruction),
            r matches Some(s) ==> s.wf(),
    {
        proof {
            encoding::lemma_field_bounds(instruction);
        }
        let decoded = encoding::S::parse(instruction);
        if decoded.opcode != 0x23 {
            return None;
        }
        let typ = match decoded.funct3 {
            0b000 => StoreType::Byte,
            0b001 => StoreType::HalfWord,
            0b010 => StoreType::Word,
            _ => {
                return None;
            },
        };
        Some(Store { typ, offset: decoded.immediate, base: decoded.rs1, src: decoded.rs2 })
    }

    /// The store's effect: memory takes the low bytes of the source
    /// register at the base register plus the offset; an access past the
    /// end of memory is fatal and changes nothing.
    pub open spec fn effect(self, m: MachineView) -> StepView {
        let addr = m.regs[self.base as int].wrapping_add(self.offset as u32);
        if addr + spec_store_width(self.typ) <= m.mem.len() {
            StepView::quiet(
                m.with_mem(
                    spec_store_mem(self.typ, m.mem, addr as int, m.regs[self.src as int]),
                ),
            )
        } else {
            StepView::fail(m, Fault::MemoryOutOfRange)
        }
    }

    /// Applies the store to the processor.
    pub fn execute(&self, cpu: &mut CPU) -> (r: Result<(), Fault>)
        requires
            old(cpu)@.wf(),
            self.wf(),
        ensures
            final(cpu)@ == self.effect(old(cpu)@).m,
            final(cpu)@.wf(),
            r == match self.effect(old(cpu)@).fault {
                Some(f) => Err::<(), Fault>(f),
                None => Ok::<(), Fault>(()),
            },
    {
        let addr = cpu.get_register(self.base).wrapping_add(self.offset as u32);
        let value = cpu.get_register(self.src);
        let width: u64 = match self.typ {
            StoreType::Byte => 1,
            StoreType::HalfWord => 2,
            StoreType::Word => 4,
        };
        if (addr as u64) + width > cpu.mem_len() {
            return Err(Fault::MemoryOutOfRange);
        }
        match self.typ {
            StoreType::Byte => cpu.write_u8(addr, (value % 0x100) as u8),
            StoreType::HalfWord => cpu.write_u16(addr, (value % 0x1_0000) as u16),
            StoreType::Word => cpu.write_u32(addr, value),
        };
        Ok(())
    }
}

/// A store followed by a load of the matching width at the same address
/// reads back the stored register value, truncated to the width; the
/// signed load kinds then sign-extend that truncation.
pub proof fn lemma_store_load_roundtrip(mem: Seq<u8>, addr: int, v: u32)
    requires
        0 <= addr,
        addr + 3 < mem.len(),
    ensures
        spec_load_value(LoadType::Word, spec_store_mem(StoreType::Word, mem, addr, v), addr) == v,
        spec_load_value(
            LoadType::HalfWordUnsigned,
            spec_store_mem(StoreType::HalfWord, mem, addr, v),
            addr,
        ) == v % 0x1_0000,
        spec_load_value(
            LoadType::ByteUnsigned,
            spec_store_mem(StoreType::Byte, mem, addr, v),
            addr,
        ) == v % 0x100,
        spec_load_value(
            LoadType::HalfWord,
            spec_store_mem(StoreType::HalfWord, mem, addr, v),
            addr,
        ) == sext16((v % 0x1_0000) as u16),
        spec_load_value(LoadType::Byte, spec_store_mem(StoreType::Byte, mem, addr, v), addr)
            == sext8((v % 0x100) as u8),
{
    ram::lemma_store_load(mem, addr, v);
}

} // verus!
