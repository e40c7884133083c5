//! System operations: the environment call used to reach the host, the
//! breakpoint trap, and the memory-ordering fence, which this sequential
//! core treats as a no-op.

use crate::cpu::CPU;
use crate::machine::{Fault, MachineView, StepView};
use crate::encoding;
use vstd::prelude::*;

verus! {

/// The two system operations the core models. Every other system form,
/// the control/status instructions included, decodes as illegal.
#[derive(Clone, Copy, Debug)]
pub enum SystemType {
    Ecall,
    Ebreak,
}

/// A system operation.
#[derive(Clone, Copy, Debug)]
pub struct System {
    pub typ: SystemType,
}

/// The environment call's effect, following the host convention:
/// register 10 holds the syscall number and register 11 the descriptor,
/// both of which must be zero, selecting a write to the host's standard
/// output; registers 12 and 13 give the buffer address and length. The
/// named bytes are emitted and the machine is otherwise unchanged. A
/// buffer that leaves the memory is fatal, as is any other syscall.
pub open spec fn spec_ecall(m: MachineView) -> StepView {
    if m.regs[10] != 0 || m.regs[11] != 0 {
        StepView::fail(m, Fault::UnknownSyscall)
    } else {
        let ptr = m.regs[12];
        let n = m.regs[13];
        if ptr + n <= m.mem.len() {
            StepView::ok(m, m.mem.subrange(ptr as int, ptr + n))
        } else {
            StepView::fail(m, Fault::MemoryOutOfRange)
        }
    }
}

impl System {
    /// What a word decodes to under the immediate shape, if it carries
    /// the system opcode and the immediate selects the environment call
    /// or the breakpoint.
    pub open spec fn spec_parse(w: u32) -> Option<System> {
        if encoding::spec_opcode(w) != 0x73 || encoding::spec_funct3(w) != 0 {
            None
        } else {
            let imm = encoding::spec_i_imm(w);
            if imm == 0 {
                Some(System { typ: SystemType::Ecall })
            } else if imm == 1 {
                Some(System { typ: SystemType::Ebreak })
            } else {
                None
            }
        }
    }

    /// Decodes a system operation, or nothing for the system forms the
    /// core does not model.
    pub fn parse(instruction: u32) -> (r: Option<System>)
        ensures
            r == Self::spec_parse(instruction),
    {
        proof {
            crate::bits::lemma_u32_i32_roundtrip(encoding::spec_i_imm(instruction));
        }
        let decoded = encoding::I::parse(instruction);
        if decoded.opcode != 0x73 {
            return None;
        }
        if decoded.funct3 != 0 {
            return None;
        }
        if decoded.immediate == 0 {
            Some(System { typ: SystemType::Ecall })
        } else if decoded.immediate == 1 {
            Some(System { typ: SystemType::Ebreak })
        } else {
            None
        }
    }

    /// The operation's effect: the environment call emits bytes or
    /// faults; the breakpoint always faults. The machine itself never
    /// changes.
    pub open spec fn effect(self, m: MachineView) -> StepView {
        match self.typ {
            SystemType::Ecall => spec_ecall(m),
            SystemType::Ebreak => StepView::fail(m, Fault::Breakpoint),
        }
    }

    /// Applies the system operation to the processor, returning the
    /// bytes it asks the host to write.
    pub fn execute(&self, cpu: &mut CPU) -> (r: Result<Vec<u8>, Fault>)
        requires
            old(cpu)@.wf(),
        ensures
            final(cpu)@ == self.effect(old(cpu)@).m,
            final(cpu)@.wf(),
            match self.effect(old(cpu)@).fault {
                Some(f) => r == Err::<Vec<u8>, Fault>(f),
                None => r matches Ok(v) && v@ == self.effect(old(cpu)@).out,
            },
    {
        match self.typ {
            SystemType::Ebreak => Err(Fault::Breakpoint),
            SystemType::Ecall => {
                let syscall = cpu.get_register(10);
                let fd = cpu.get_register(11);
                if syscall != 0 || fd != 0 {
                    return Err(Fault::UnknownSyscall);
                }
                let ptr = cpu.get_register(12);
                let n = cpu.get_register(13);
                if (ptr as u64) + (n as u64) > cpu.mem_len() {
                    return Err(Fault::MemoryOutOfRange);
                }
                let mut out: Vec<u8> = Vec::new();
                let mut i: u32 = 0;
                while i < n
                    invariant
                        i <= n,
                        ptr + n <= cpu@.mem.len(),
                        cpu@ == old(cpu)@,
                        cpu@.wf(),
                        out@ == cpu@.mem.subrange(ptr as int, ptr + i),
                    decreases n - i,
                {
                    let b = cpu.read_u8(ptr + i);
                    out.push(b);
                    i = i + 1;
                    proof {
                        assert(out@ =~= cpu@.mem.subrange(ptr as int, ptr + i));
                    }
                }
                proof {
                    assert(out@ =~= self.effect(old(cpu)@).out);
                }
                Ok(out)
            },
        }
    }
}

/// The memory-ordering fence. The core executes instructions one at a
/// time in program order, so the fence has no effect.
#[derive(Clone, Copy, Debug)]
pub struct Fence;

impl Fence {
    /// What a word decodes to, if it carries the memory-ordering opcode.
    pub open spec fn spec_parse(w: u32) -> Option<Fence> {
        if encoding::spec_opcode(w) == 0x0F {
            Some(Fence)
        } else {
            None
        }
    }

    /// Decodes a fence, or nothing when the opcode differs.
    pub fn parse(instruction: u32) -> (r: Option<Fence>)
        ensures
            r == Self::spec_parse(instruction),
    {
        if encoding::get_opcode(instruction) == 0x0F {
            Some(Fence)
        } else {
            None
        }
    }

    /// The fence's effect: none.
    pub open spec fn effect(self, m: MachineView) -> StepView {
        StepView::quiet(m)
    }

    /// Applies the fence: the machine is unchanged.
    pub fn execute(&self, cpu: &mut CPU)
        requires
            old(cpu)@.wf(),
        ensures
            final(cpu)@ == self.effect(old(cpu)@).m,
            final(cpu)@.wf(),
    {
    }
}

} // verus!
