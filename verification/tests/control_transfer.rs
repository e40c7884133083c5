//! Conditional branch behaviour, driven through decoded instructions
//! against a small machine.

use riscv_emu::cpu::CPU;
use riscv_emu::ram::RAM;
use riscv_emu::rv32i::Branch;

fn check_taken(cpu: &mut CPU, op: u32, val1: u32, val2: u32) {
    cpu.set_register(1, val1);
    cpu.set_register(2, val2);
    let raw_instruction: u32 = (4 << 8) | (2 << 20) | (1 << 15) | (op << 12) | 0x63;
    let instr = Branch::parse(raw_instruction).expect("couldn't parse instruction");
    cpu.pc = 100;
    instr.execute(cpu);
    cpu.pc = cpu.pc.wrapping_add(4);
    assert_eq!(cpu.pc, 108);
}

fn check_not_taken(cpu: &mut CPU, op: u32, val1: u32, val2: u32) {
    cpu.set_register(1, val1);
    cpu.set_register(2, val2);
    let raw_instruction: u32 = (4 << 8) | (2 << 20) | (1 << 15) | (op << 12) | 0x63;
    let instr = Branch::parse(raw_instruction).expect("couldn't parse instruction");
    cpu.pc = 100;
    instr.execute(cpu);
    cpu.pc = cpu.pc.wrapping_add(4);
    assert_eq!(cpu.pc, 104);
}

#[test]
fn test_beq() {
    let mut cpu = CPU::new(RAM::new(1024));

    check_taken(&mut cpu, 0b000, 0, 0);
    check_taken(&mut cpu, 0b000, 1, 1);
    check_taken(&mut cpu, 0b000, (-1i32) as u32, (-1i32) as u32);

    check_not_taken(&mut cpu, 0b000, 0, 1);
    check_not_taken(&mut cpu, 0b000, 1, 0);
    check_not_taken(&mut cpu, 0b000, (-1i32) as u32, 1);
    check_not_taken(&mut cpu, 0b000, 1, (-1i32) as u32);
}

#[test]
fn test_bne() {
    let mut cpu = CPU::new(RAM::new(1024));

    check_taken(&mut cpu, 0b001, 0, 1);
    check_taken(&mut cpu, 0b001, 1, 0);
    check_taken(&mut cpu, 0b001, (-1i32) as u32, 1);
    check_taken(&mut cpu, 0b001, 1, (-1i32) as u32);

    check_not_taken(&mut cpu, 0b001, 0, 0);
    check_not_taken(&mut cpu, 0b001, 1, 1);
    check_not_taken(&mut cpu, 0b001, (-1i32) as u32, (-1i32) as u32);
}

#[test]
fn test_blt() {
    let mut cpu = CPU::new(RAM::new(1024));

    check_taken(&mut cpu, 0b100, 0, 1);
    check_taken(&mut cpu, 0b100, (-1i32) as u32, 1);
    check_taken(&mut cpu, 0b100, (-2i32) as u32, (-1i32) as u32);

    check_not_taken(&mut cpu, 0b100, 1, 0);
    check_not_taken(&mut cpu, 0b100, 1, (-1i32) as u32);
    check_not_taken(&mut cpu, 0b100, (-1i32) as u32, (-2i32) as u32);
    check_not_taken(&mut cpu, 0b100, 1, (-2i32) as u32);
}

#[test]
fn test_bge() {
    let mut cpu = CPU::new(RAM::new(1024));

    check_taken(&mut cpu, 0b101, 0, 0);
    check_taken(&mut cpu, 0b101, 1, 1);
    check_taken(&mut cpu, 0b101, (-1i32) as u32, (-1i32) as u32);
    check_taken(&mut cpu, 0b101, 1, 0);
    check_taken(&mut cpu, 0b101, 1, (-1i32) as u32);
    check_taken(&mut cpu, 0b101, (-1i32) as u32, (-2i32) as u32);

    check_not_taken(&mut cpu, 0b101, 0, 1);
    check_not_taken(&mut cpu, 0b101, (-1i32) as u32, 1);
    check_not_taken(&mut cpu, 0b101, (-2i32) as u32, (-1i32) as u32);
    check_not_taken(&mut cpu, 0b101, (-2i32) as u32, 1);
}

#[test]
fn test_bltu() {
    let mut cpu = CPU::new(RAM::new(1024));

    check_taken(&mut cpu, 0b110, 0x00000000, 0x00000001);
    check_taken(&mut cpu, 0b110, 0xfffffffe, 0xffffffff);
    check_taken(&mut cpu, 0b110, 0x00000000, 0xffffffff);

    check_not_taken(&mut cpu, 0b110, 0x00000001, 0x00000000);
    check_not_taken(&mut cpu, 0b110, 0xffffffff, 0xfffffffe);
    check_not_taken(&mut cpu, 0b110, 0xffffffff, 0x00000000);
    check_not_taken(&mut cpu, 0b110, 0x80000000, 0x7fffffff);
}

#[test]
fn test_bgeu() {
    let mut cpu = CPU::new(RAM::new(1024));

    check_taken(&mut cpu, 0b111, 0x00000000, 0x00000000);
    check_taken(&mut cpu, 0b111, 0x00000001, 0x00000001);
    check_taken(&mut cpu, 0b111, 0xffffffff, 0xffffffff);
    check_taken(&mut cpu, 0b111, 0x00000001, 0x00000000);
    check_taken(&mut cpu, 0b111, 0xffffffff, 0xfffffffe);
    check_taken(&mut cpu, 0b111, 0xffffffff, 0x00000000);

    check_not_taken(&mut cpu, 0b111, 0x00000000, 0x00000001);
    check_not_taken(&mut cpu, 0b111, 0xfffffffe, 0xffffffff);
    check_not_taken(&mut cpu, 0b111, 0x00000000, 0xffffffff);
    check_not_taken(&mut cpu, 0b111, 0x7fffffff, 0x80000000);
}
