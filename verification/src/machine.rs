//! The mathematical model of the machine: register file contents, program
//! counter, memory bytes and the control/status state, together with the
//! fatal conditions that stop a run.

use vstd::prelude::*;

verus! {

/// The five fatal conditions. None of them is recoverable: the executor
/// reports the first one it meets and leaves the machine unchanged.
#[derive(Clone, Copy, Debug, PartialEq, Eq, Structural)]
pub enum Fault {
    /// The fetched word does not decode to a supported operation.
    IllegalInstruction,
    /// An environment call with an unhandled syscall number or descriptor.
    UnknownSyscall,
    /// A fetch, load or store whose address lies outside the memory.
    MemoryOutOfRange,
    /// A deliberate debugger trap.
    Breakpoint,
    /// An access to a control/status register outside the modelled set.
    UnmodelledCsr,
}

/// The architectural state, as specifications see it.
pub ghost struct MachineView {
    /// The 32 general-purpose registers.
    pub regs: Seq<u32>,
    /// The address of the next instruction to fetch.
    pub pc: u32,
    /// The memory image, one byte per address.
    pub mem: Seq<u8>,
    /// The cycle counter, incremented once per executed instruction.
    pub cycles: u64,
    /// The exception program counter (zero until a trap records one).
    pub mepc: u32,
}

impl MachineView {
    /// Well-formedness: 32 registers, a hard-wired zero register, and a
    /// memory that word-sized addresses can cover.
    pub open spec fn wf(self) -> bool {
        &&& self.regs.len() == 32
        &&& self.regs[0] == 0
        &&& self.mem.len() <= 0xFFFF_FFFF
    }

    /// A register write. Writes to index 0 are discarded, which keeps the
    /// zero register at zero.
    pub open spec fn write_reg(self, d: int, v: u32) -> MachineView {
        if d == 0 {
            self
        } else {
            MachineView { regs: self.regs.update(d, v), ..self }
        }
    }

    /// The same machine with a new program counter.
    pub open spec fn with_pc(self, pc: u32) -> MachineView {
        MachineView { pc, ..self }
    }

    /// The same machine with new memory contents.
    pub open spec fn with_mem(self, mem: Seq<u8>) -> MachineView {
        MachineView { mem, ..self }
    }
}

/// A register write is read back exactly: after writing `v` to a
/// nonzero destination `d`, register `d` holds `v` and every other
/// register is untouched; a write to register 0 changes nothing.
pub proof fn lemma_write_then_read(m: MachineView, d: int, v: u32)
    requires
        m.wf(),
        0 <= d < 32,
    ensures
        d != 0 ==> m.write_reg(d, v).regs[d] == v,
        forall|i: int| 0 <= i < 32 && i != d ==> m.write_reg(d, v).regs[i] == m.regs[i],
        d == 0 ==> m.write_reg(d, v) == m,
{
}

/// What one operation does: the machine after it, the bytes it emitted to
/// the host, and the fault it raised, if any. A faulting operation leaves
/// the machine unchanged and emits nothing.
pub ghost struct StepView {
    pub m: MachineView,
    pub out: Seq<u8>,
    pub fault: Option<Fault>,
}

impl StepView {
    /// A successful step with output.
    pub open spec fn ok(m: MachineView, out: Seq<u8>) -> StepView {
        StepView { m, out, fault: None }
    }

    /// A successful step that emits nothing.
    pub open spec fn quiet(m: MachineView) -> StepView {
        StepView { m, out: Seq::empty(), fault: None }
    }

    /// A fatal step: the machine `m` is the state it was met in.
    pub open spec fn fail(m: MachineView, f: Fault) -> StepView {
        StepView { m, out: Seq::empty(), fault: Some(f) }
    }
}

} // verus!
