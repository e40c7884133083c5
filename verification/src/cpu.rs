//! The processor: the register file, the program counter, the memory and
//! the control/status registers, with the fetch-decode-execute engine.

use crate::instruction::{self, Operation};
use crate::machine::{Fault, MachineView, StepView};
use crate::ram::{word_at, RAM};
use vstd::prelude::*;

verus! {

/// Whether the four bytes of the next instruction lie inside memory.
pub open spec fn spec_fetch_ok(m: MachineView) -> bool {
    m.pc + 3 < m.mem.len()
}

/// The instruction word fetched at the program counter, little-endian.
pub open spec fn spec_fetched(m: MachineView) -> u32 {
    word_at(m.mem, m.pc as int)
}

/// The machine after an operation completes: the program counter moves
/// to the next word past whatever the operation left, and the cycle
/// counter ticks once.
pub open spec fn spec_advance(m: MachineView) -> MachineView {
    MachineView { pc: m.pc.wrapping_add(4), cycles: m.cycles.wrapping_add(1), ..m }
}

/// What one decoded operation does to the machine.
pub open spec fn spec_op_effect(op: Operation, m: MachineView) -> StepView {
    match op {
        Operation::Lui(x) => x.effect(m),
        Operation::Auipc(x) => x.effect(m),
        Operation::Jal(x) => x.effect(m),
        Operation::Jalr(x) => x.effect(m),
        Operation::Branch(x) => x.effect(m),
        Operation::Load(x) => x.effect(m),
        Operation::Store(x) => x.effect(m),
        Operation::OpImm(x) => x.effect(m),
        Operation::Op(x) => x.effect(m),
        Operation::MulDiv(x) => x.effect(m),
        Operation::System(x) => x.effect(m),
        Operation::Fence(x) => x.effect(m),
    }
}

/// One full instruction cycle: fetch the word at the program counter,
/// decode it, apply the operation, advance the counter and tick the
/// cycle count. A fetch outside memory, an illegal word, or a faulting
/// operation stops the cycle and leaves the machine exactly as it was.
pub open spec fn spec_step(m: MachineView) -> StepView {
    if !spec_fetch_ok(m) {
        StepView::fail(m, Fault::MemoryOutOfRange)
    } else {
        match instruction::spec_parse(spec_fetched(m)) {
            None => StepView::fail(m, Fault::IllegalInstruction),
            Some(op) => {
                let e = spec_op_effect(op, m);
                match e.fault {
                    Some(f) => StepView::fail(m, f),
                    None => StepView::ok(spec_advance(e.m), e.out),
                }
            },
        }
    }
}

/// One instruction cycle keeps the machine well-formed: in particular,
/// register 0 still reads zero afterwards, whatever the operation was.
pub proof fn lemma_step_preserves_zero(m: MachineView)
    requires
        m.wf(),
    ensures
        spec_step(m).m.wf(),
        spec_step(m).m.regs[0] == 0,
{
    if spec_fetch_ok(m) {
        match instruction::spec_parse(spec_fetched(m)) {
            None => {},
            Some(op) => {
                crate::encoding::lemma_field_bounds(spec_fetched(m));
                let e = spec_op_effect(op, m);
                match op {
                    Operation::Lui(_) => assert(e.m.wf()),
                    Operation::Auipc(_) => assert(e.m.wf()),
                    Operation::Jal(_) => assert(e.m.wf()),
                    Operation::Jalr(_) => assert(e.m.wf()),
                    Operation::Branch(_) => assert(e.m.wf()),
                    Operation::Load(_) => assert(e.m.wf()),
                    Operation::Store(_) => assert(e.m.wf()),
                    Operation::OpImm(_) => assert(e.m.wf()),
                    Operation::Op(_) => assert(e.m.wf()),
                    Operation::MulDiv(_) => assert(e.m.wf()),
                    Operation::System(_) => assert(e.m.wf()),
                    Operation::Fence(_) => assert(e.m.wf()),
                }
            },
        }
    }
}

/// Why a run stopped: the program returned to address zero, a fatal
/// condition arose, or the step budget ran out first.
#[derive(Clone, Copy, Debug, PartialEq, Eq, Structural)]
pub enum RunEnd {
    Exit,
    Fault(Fault),
    Limit,
}

/// The machine, host output and stopping cause after at most `fuel`
/// instruction cycles from `m`: cycles accumulate until one faults, the
/// program counter comes back to zero, or the budget is spent.
pub open spec fn spec_run(m: MachineView, fuel: nat) -> RunView
    decreases fuel,
{
    if fuel == 0 {
        RunView { m, out: Seq::empty(), end: RunEnd::Limit }
    } else {
        let s = spec_step(m);
        match s.fault {
            Some(f) => RunView { m, out: Seq::empty(), end: RunEnd::Fault(f) },
            None => {
                if s.m.pc == 0 {
                    RunView { m: s.m, out: s.out, end: RunEnd::Exit }
                } else {
                    let rest = spec_run(s.m, (fuel - 1) as nat);
                    RunView { m: rest.m, out: s.out + rest.out, end: rest.end }
                }
            },
        }
    }
}

/// After any sequence of instruction cycles from a well-formed machine,
/// reading register 0 still yields zero.
pub proof fn lemma_run_zero_register(m: MachineView, fuel: nat)
    requires
        m.wf(),
    ensures
        spec_run(m, fuel).m.wf(),
        spec_run(m, fuel).m.regs[0] == 0,
    decreases fuel,
{
    if fuel > 0 {
        let s = spec_step(m);
        lemma_step_preserves_zero(m);
        if s.fault is None && s.m.pc != 0 {
            lemma_run_zero_register(s.m, (fuel - 1) as nat);
        }
    }
}

/// The outcome of a bounded run.
pub ghost struct RunView {
    pub m: MachineView,
    pub out: Seq<u8>,
    pub end: RunEnd,
}

/// What a bounded run returns: every byte the program wrote to the
/// host, and why it stopped.
pub struct RunResult {
    pub output: Vec<u8>,
    pub end: RunEnd,
}

/// The initial stack-pointer value, near the top of the usable memory the
/// front-end configures.
pub const STACK_POINTER_INIT: u32 = 1020 * 1024;

/// The identification constant read from the ISA register: a 32-bit base
/// with the integer and multiply extensions.
pub const MISA_RV32IM: u32 = 0x4000_0000 | 0x100 | 0x1000;

struct CSRs {
    cycles: u64,
    mepc: u32,
}

/// The register contents a run starts from: all zero, except the stack
/// pointer in register 2.
pub open spec fn spec_init_regs() -> Seq<u32> {
    Seq::new(
        32,
        |i: int|
            if i == 2 {
                STACK_POINTER_INIT
            } else {
                0u32
            },
    )
}

/// What a read of a control/status register returns: the exception
/// program counter, the two halves of the cycle counter, the ISA
/// identification constant, zero for the modelled performance counters,
/// and a fault for everything else.
pub open spec fn spec_csr_read(m: MachineView, csr: u16) -> Result<u32, Fault> {
    if csr == 0x341 {
        Ok(m.mepc)
    } else if (0x700 <= csr && csr <= 0x702) || (0x704 <= csr && csr <= 0x706) || (0x708 <= csr
        && csr <= 0x70A) {
        Ok(0)
    } else if csr == 0xC00 {
        Ok((m.cycles % 0x1_0000_0000) as u32)
    } else if csr == 0xC80 {
        Ok((m.cycles / 0x1_0000_0000) as u32)
    } else if csr == 0xF10 {
        Ok(MISA_RV32IM)
    } else {
        Err(Fault::UnmodelledCsr)
    }
}

/// The processor state.
pub struct CPU {
    regs: Vec<u32>,
    csr: CSRs,
    /// The address of the next instruction to fetch.
    pub pc: u32,
    /// The byte memory the program runs against.
    pub ram: RAM,
}

impl View for CPU {
    type V = MachineView;

    closed spec fn view(&self) -> MachineView {
        MachineView {
            regs: self.regs@,
            pc: self.pc,
            mem: self.ram@,
            cycles: self.csr.cycles,
            mepc: self.csr.mepc,
        }
    }
}

impl CPU {
    /// A processor over the given memory: registers cleared, the stack
    /// pointer set, the program counter and all counters at zero.
    pub fn new(ram: RAM) -> (cpu: CPU)
        requires
            ram@.len() <= 0xFFFF_FFFF,
        ensures
            cpu@.wf(),
            cpu@.regs == spec_init_regs(),
            cpu@.pc == 0,
            cpu@.mem == ram@,
            cpu@.cycles == 0,
            cpu@.mepc == 0,
    {
        let mut regs: Vec<u32> = Vec::new();
        let mut i: usize = 0;
        while i < 32
            invariant
                i <= 32,
                regs@.len() == i,
                forall|j: int| 0 <= j < i ==> regs@[j] == 0,
            decreases 32 - i,
        {
            regs.push(0);
            i = i + 1;
        }
        regs.set(2, STACK_POINTER_INIT);
        let cpu = CPU { regs, csr: CSRs { cycles: 0, mepc: 0 }, pc: 0, ram };
        proof {
            assert(cpu@.regs =~= spec_init_regs());
        }
        cpu
    }

    /// Reads a general-purpose register. Register 0 always reads zero.
    pub fn get_register(&self, reg: u8) -> (r: u32)
        requires
            self@.wf(),
            reg < 32,
        ensures
            r == self@.regs[reg as int],
            reg == 0 ==> r == 0,
    {
        self.regs[reg as usize]
    }

    /// Writes a general-purpose register. A write to register 0 is
    /// silently discarded.
    pub fn set_register(&mut self, reg: u8, value: u32)
        requires
            old(self)@.wf(),
            reg < 32,
        ensures
            final(self)@ == old(self)@.write_reg(reg as int, value),
            final(self)@.wf(),
    {
        if reg == 0 {
            return ;
        }
        self.regs.set(reg as usize, value);
    }

    /// The program counter.
    pub fn get_pc(&self) -> (r: u32)
        ensures
            r == self@.pc,
    {
        self.pc
    }

    /// Sets the program counter.
    pub fn set_pc(&mut self, pc: u32)
        ensures
            final(self)@ == old(self)@.with_pc(pc),
    {
        self.pc = pc;
    }

    /// How many bytes of memory the processor addresses.
    pub fn mem_len(&self) -> (r: u64)
        ensures
            r == self@.mem.len(),
    {
        self.ram.len() as u64
    }

    /// Reads one byte of memory.
    pub fn read_u8(&self, addr: u32) -> (r: u8)
        requires
            addr < self@.mem.len(),
        ensures
            r == self@.mem[addr as int],
    {
        self.ram.get_u8(addr)
    }

    /// Reads a little-endian 16-bit value from memory.
    pub fn read_u16(&self, addr: u32) -> (r: u16)
        requires
            addr + 1 < self@.mem.len(),
        ensures
            r == crate::ram::half_at(self@.mem, addr as int),
    {
        self.ram.get_u16(addr)
    }

    /// Reads a little-endian 32-bit value from memory.
    pub fn read_u32(&self, addr: u32) -> (r: u32)
        requires
            addr + 3 < self@.mem.len(),
        ensures
            r == crate::ram::word_at(self@.mem, addr as int),
    {
        self.ram.get_u32(addr)
    }

    /// Writes one byte of memory.
    pub fn write_u8(&mut self, addr: u32, v: u8)
        requires
            addr < old(self)@.mem.len(),
        ensures
            final(self)@ == old(self)@.with_mem(old(self)@.mem.update(addr as int, v)),
    {
        self.ram.set_u8(addr, v);
    }

    /// Writes a little-endian 16-bit value to memory.
    pub fn write_u16(&mut self, addr: u32, v: u16)
        requires
            addr + 1 < old(self)@.mem.len(),
        ensures
            final(self)@ == old(self)@.with_mem(crate::ram::store_half(old(self)@.mem, addr as int, v)),
    {
        self.ram.set_u16(addr, v);
    }

    /// Writes a little-endian 32-bit value to memory.
    pub fn write_u32(&mut self, addr: u32, v: u32)
        requires
            addr + 3 < old(self)@.mem.len(),
        ensures
            final(self)@ == old(self)@.with_mem(crate::ram::store_word(old(self)@.mem, addr as int, v)),
    {
        self.ram.set_u32(addr, v);
    }

    /// Runs one full instruction cycle, returning the bytes the
    /// instruction wrote to the host, or the fault that stopped it. A
    /// faulting cycle leaves the machine exactly as it was.
    pub fn step(&mut self) -> (r: Result<Vec<u8>, Fault>)
        requires
            old(self)@.wf(),
        ensures
            final(self)@.wf(),
            final(self)@ == spec_step(old(self)@).m,
            match spec_step(old(self)@).fault {
                Some(f) => r == Err::<Vec<u8>, Fault>(f),
                None => r matches Ok(v) && v@ == spec_step(old(self)@).out,
            },
    {
        let pc = self.pc;
        if (pc as u64) + 3 >= self.ram.len() as u64 {
            return Err(Fault::MemoryOutOfRange);
        }
        let w = self.ram.get_u32(pc);
        let op = match instruction::parse(w) {
            Some(op) => op,
            None => {
                return Err(Fault::IllegalInstruction);
            },
        };
        let out: Vec<u8> = match op {
            Operation::Lui(x) => {
                x.execute(self);
                Vec::new()
            },
            Operation::Auipc(x) => {
                x.execute(self);
                Vec::new()
            },
            Operation::Jal(x) => {
                x.execute(self);
                Vec::new()
            },
            Operation::Jalr(x) => {
                x.execute(self);
                Vec::new()
            },
            Operation::Branch(x) => {
                x.execute(self);
                Vec::new()
            },
            Operation::OpImm(x) => {
                x.execute(self);
                Vec::new()
            },
            Operation::Op(x) => {
                x.execute(self);
                Vec::new()
            },
            Operation::MulDiv(x) => {
                x.execute(self);
                Vec::new()
            },
            Operation::Fence(x) => {
                x.execute(self);
                Vec::new()
            },
            Operation::Load(x) => match x.execute(self) {
                Ok(()) => Vec::new(),
                Err(f) => {
                    return Err(f);
                },
            },
            Operation::Store(x) => match x.execute(self) {
                Ok(()) => Vec::new(),
                Err(f) => {
                    return Err(f);
                },
            },
            Operation::System(x) => match x.execute(self) {
                Ok(v) => v,
                Err(f) => {
                    return Err(f);
                },
            },
        };
        self.pc = self.pc.wrapping_add(4);
        self.csr.cycles = self.csr.cycles.wrapping_add(1);
        Ok(out)
    }

    /// Runs from the entry point for at most `max_steps` instruction
    /// cycles: the return-address register is cleared first, so a
    /// program that returns through it jumps to address zero and exits
    /// the run cleanly.
    pub fn run(&mut self, entry_point: u32, max_steps: u64) -> (r: RunResult)
        requires
            old(self)@.wf(),
        ensures
            final(self)@.wf(),
            ({
                let rv = spec_run(
                    old(self)@.write_reg(1, 0).with_pc(entry_point),
                    max_steps as nat,
                );
                final(self)@ == rv.m && r.output@ == rv.out && r.end == rv.end
            }),
    {
        self.set_register(1, 0);
        self.pc = entry_point;
        let ghost m0 = self@;
        let mut output: Vec<u8> = Vec::new();
        let mut steps: u64 = 0;
        while steps < max_steps
            invariant
                self@.wf(),
                steps <= max_steps,
                m0 == old(self)@.write_reg(1, 0).with_pc(entry_point),
                ({
                    let full = spec_run(m0, max_steps as nat);
                    let rest = spec_run(self@, (max_steps - steps) as nat);
                    full.m == rest.m && full.out == output@ + rest.out && full.end == rest.end
                }),
            decreases max_steps - steps,
        {
            let ghost pre = self@;
            let ghost fuel = (max_steps - steps) as nat;
            match self.step() {
                Err(f) => {
                    proof {
                        assert(spec_run(m0, max_steps as nat).out =~= output@);
                    }
                    return RunResult { output, end: RunEnd::Fault(f) };
                },
                Ok(mut v) => {
                    proof {
                        assert(spec_run(pre, fuel).out =~= spec_step(pre).out + spec_run(
                            spec_step(pre).m,
                            (fuel - 1) as nat,
                        ).out || spec_step(pre).m.pc == 0);
                    }
                    output.append(&mut v);
                    if self.pc == 0 {
                        proof {
                            assert(spec_run(m0, max_steps as nat).out =~= output@);
                        }
                        return RunResult { output, end: RunEnd::Exit };
                    }
                    steps = steps + 1;
                    proof {
                        assert(spec_run(m0, max_steps as nat).out =~= output@ + spec_run(
                            self@,
                            (max_steps - steps) as nat,
                        ).out);
                    }
                },
            }
        }
        proof {
            assert(spec_run(m0, max_steps as nat).out =~= output@);
        }
        RunResult { output, end: RunEnd::Limit }
    }

    /// Reads a control/status register; accesses outside the modelled set
    /// are fatal.
    pub fn get_csr(&self, csr: u16) -> (r: Result<u32, Fault>)
        ensures
            r == spec_csr_read(self@, csr),
    {
        if csr == 0x341 {
            Ok(self.csr.mepc)
        } else if (0x700 <= csr && csr <= 0x702) || (0x704 <= csr && csr <= 0x706) || (0x708 <= csr
            && csr <= 0x70A) {
            Ok(0)
        } else if csr == 0xC00 {
            Ok((self.csr.cycles % 0x1_0000_0000) as u32)
        } else if csr == 0xC80 {
            Ok((self.csr.cycles / 0x1_0000_0000) as u32)
        } else if csr == 0xF10 {
            Ok(MISA_RV32IM)
        } else {
            Err(Fault::UnmodelledCsr)
        }
    }

    /// Writes a control/status register: the one accepted register
    /// discards the value, and every other access is fatal. The machine
    /// state is unchanged either way.
    pub fn set_csr(&mut self, csr: u16, value: u32) -> (r: Result<(), Fault>)
        ensures
            final(self)@ == old(self)@,
            r == if csr == 0x780 {
                Ok::<(), Fault>(())
            } else {
                Err::<(), Fault>(Fault::UnmodelledCsr)
            },
    {
        if csr == 0x780 {
            Ok(())
        } else {
            Err(Fault::UnmodelledCsr)
        }
    }
}

} // verus!
