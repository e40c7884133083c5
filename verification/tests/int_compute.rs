//! Register-immediate and register-register integer computation,
//! driven through decoded instructions against a small machine.

use riscv_emu::cpu::CPU;
use riscv_emu::ram::RAM;
use riscv_emu::rv32i::{Lui, Op, OpImm};

fn check_imm_op(cpu: &mut CPU, op: u32, result: u32, val1: u32, imm: u32) {
    cpu.set_register(1, val1);
    let raw_instruction: u32 = ((imm & 0xFFF) << 20) | (1 << 15) | (3 << 7) | (op << 12) | 0x13;
    let instr = OpImm::parse(raw_instruction).expect("couldn't parse instruction");
    instr.execute(cpu);
    assert_eq!(cpu.get_register(3), result);
}

fn check_imm_src1_eq_dest(cpu: &mut CPU, op: u32, result: u32, val1: u32, imm: u32) {
    cpu.set_register(1, val1);
    let raw_instruction: u32 = ((imm & 0xFFF) << 20) | (1 << 15) | (1 << 7) | (op << 12) | 0x13;
    let instr = OpImm::parse(raw_instruction).expect("couldn't parse instruction");
    instr.execute(cpu);
    assert_eq!(cpu.get_register(1), result);
}

fn check_rr_op(cpu: &mut CPU, op1: u32, op2: u32, result: u32, val1: u32, val2: u32) {
    cpu.set_register(1, val1);
    cpu.set_register(2, val2);
    let raw_instruction: u32 = (op2 << 25) | (2 << 20) | (1 << 15) | (3 << 7) | (op1 << 12) | 0x33;
    let instr = Op::parse(raw_instruction).expect("couldn't parse instruction");
    instr.execute(cpu);
    assert_eq!(cpu.get_register(3), result);
}

fn check_rr_src1_eq_dest(cpu: &mut CPU, op1: u32, op2: u32, result: u32, val1: u32, val2: u32) {
    cpu.set_register(1, val1);
    cpu.set_register(2, val2);
    let raw_instruction: u32 = (op2 << 25) | (2 << 20) | (1 << 15) | (1 << 7) | (op1 << 12) | 0x33;
    let instr = Op::parse(raw_instruction).expect("couldn't parse instruction");
    instr.execute(cpu);
    assert_eq!(cpu.get_register(1), result);
}

fn check_rr_src2_eq_dest(cpu: &mut CPU, op1: u32, op2: u32, result: u32, val1: u32, val2: u32) {
    cpu.set_register(1, val1);
    cpu.set_register(2, val2);
    let raw_instruction: u32 = (op2 << 25) | (2 << 20) | (1 << 15) | (2 << 7) | (op1 << 12) | 0x33;
    let instr = Op::parse(raw_instruction).expect("couldn't parse instruction");
    instr.execute(cpu);
    assert_eq!(cpu.get_register(2), result);
}

fn check_rr_src12_eq_dest(cpu: &mut CPU, op1: u32, op2: u32, result: u32, val1: u32) {
    cpu.set_register(1, val1);
    let raw_instruction: u32 = (op2 << 25) | (1 << 20) | (1 << 15) | (1 << 7) | (op1 << 12) | 0x33;
    let instr = Op::parse(raw_instruction).expect("couldn't parse instruction");
    instr.execute(cpu);
    assert_eq!(cpu.get_register(1), result);
}


#[test]
fn test_addi() {
    let mut cpu = CPU::new(RAM::new(1024));

    check_imm_op(&mut cpu, 0b000, 0x00000000, 0x00000000, 0x000);
    check_imm_op(&mut cpu, 0b000, 0x00000002, 0x00000001, 0x001);
    check_imm_op(&mut cpu, 0b000, 0x0000000a, 0x00000003, 0x007);
    check_imm_op(&mut cpu, 0b000, 0xfffff800, 0x00000000, 0x800);
    check_imm_op(&mut cpu, 0b000, 0x80000000, 0x80000000, 0x000);
    check_imm_op(&mut cpu, 0b000, 0x7ffff800, 0x80000000, 0x800);
    check_imm_op(&mut cpu, 0b000, 0x000007ff, 0x00000000, 0x7ff);
    check_imm_op(&mut cpu, 0b000, 0x7fffffff, 0x7fffffff, 0x000);
    check_imm_op(&mut cpu, 0b000, 0x800007fe, 0x7fffffff, 0x7ff);
    check_imm_op(&mut cpu, 0b000, 0x800007ff, 0x80000000, 0x7ff);
    check_imm_op(&mut cpu, 0b000, 0x7ffff7ff, 0x7fffffff, 0x800);
    check_imm_op(&mut cpu, 0b000, 0xffffffff, 0x00000000, 0xfff);
    check_imm_op(&mut cpu, 0b000, 0x00000000, 0xffffffff, 0x001);
    check_imm_op(&mut cpu, 0b000, 0xfffffffe, 0xffffffff, 0xfff);
    check_imm_op(&mut cpu, 0b000, 0x80000000, 0x7fffffff, 0x001);

    check_imm_src1_eq_dest(&mut cpu, 0b000, 24, 13, 11);
}

#[test]
fn test_slli() {
    let mut cpu = CPU::new(RAM::new(1024));

    check_imm_op(&mut cpu, 0b001, 0x00000001, 0x00000001, 0);
    check_imm_op(&mut cpu, 0b001, 0x00000002, 0x00000001, 1);
    check_imm_op(&mut cpu, 0b001, 0x00000080, 0x00000001, 7);
    check_imm_op(&mut cpu, 0b001, 0x00004000, 0x00000001, 14);
    check_imm_op(&mut cpu, 0b001, 0x80000000, 0x00000001, 31);
    check_imm_op(&mut cpu, 0b001, 0xffffffff, 0xffffffff, 0);
    check_imm_op(&mut cpu, 0b001, 0xfffffffe, 0xffffffff, 1);
    check_imm_op(&mut cpu, 0b001, 0xffffff80, 0xffffffff, 7);
    check_imm_op(&mut cpu, 0b001, 0xffffc000, 0xffffffff, 14);
    check_imm_op(&mut cpu, 0b001, 0x80000000, 0xffffffff, 31);
    check_imm_op(&mut cpu, 0b001, 0x21212121, 0x21212121, 0);
    check_imm_op(&mut cpu, 0b001, 0x42424242, 0x21212121, 1);
    check_imm_op(&mut cpu, 0b001, 0x90909080, 0x21212121, 7);
    check_imm_op(&mut cpu, 0b001, 0x48484000, 0x21212121, 14);
    check_imm_op(&mut cpu, 0b001, 0x80000000, 0x21212121, 31);

    check_imm_src1_eq_dest(&mut cpu, 0b001, 0x00000080, 0x00000001, 7);
}

#[test]
fn test_slti() {
    let mut cpu = CPU::new(RAM::new(1024));

    check_imm_op(&mut cpu, 0b010, 0, 0x00000000, 0x000);
    check_imm_op(&mut cpu, 0b010, 0, 0x00000001, 0x001);
    check_imm_op(&mut cpu, 0b010, 1, 0x00000003, 0x007);
    check_imm_op(&mut cpu, 0b010, 0, 0x00000007, 0x003);
    check_imm_op(&mut cpu, 0b010, 0, 0x00000000, 0x800);
    check_imm_op(&mut cpu, 0b010, 1, 0x80000000, 0x000);
    check_imm_op(&mut cpu, 0b010, 1, 0x80000000, 0x800);
    check_imm_op(&mut cpu, 0b010, 1, 0x00000000, 0x7ff);
    check_imm_op(&mut cpu, 0b010, 0, 0x7fffffff, 0x000);
    check_imm_op(&mut cpu, 0b010, 0, 0x7fffffff, 0x7ff);
    check_imm_op(&mut cpu, 0b010, 1, 0x80000000, 0x7ff);
    check_imm_op(&mut cpu, 0b010, 0, 0x7fffffff, 0x800);
    check_imm_op(&mut cpu, 0b010, 0, 0x00000000, 0xfff);
    check_imm_op(&mut cpu, 0b010, 1, 0xffffffff, 0x001);
    check_imm_op(&mut cpu, 0b010, 0, 0xffffffff, 0xfff);

    check_imm_src1_eq_dest(&mut cpu, 0b010, 1, 11, 13);
}

#[test]
fn test_sltiu() {
    let mut cpu = CPU::new(RAM::new(1024));

    check_imm_op(&mut cpu, 0b011, 0, 0x00000000, 0x000);
    check_imm_op(&mut cpu, 0b011, 0, 0x00000001, 0x001);
    check_imm_op(&mut cpu, 0b011, 1, 0x00000003, 0x007);
    check_imm_op(&mut cpu, 0b011, 0, 0x00000007, 0x003);
    check_imm_op(&mut cpu, 0b011, 1, 0x00000000, 0x800);
    check_imm_op(&mut cpu, 0b011, 0, 0x80000000, 0x000);
    check_imm_op(&mut cpu, 0b011, 1, 0x80000000, 0x800);
    check_imm_op(&mut cpu, 0b011, 1, 0x00000000, 0x7ff);
    check_imm_op(&mut cpu, 0b011, 0, 0x7fffffff, 0x000);
    check_imm_op(&mut cpu, 0b011, 0, 0x7fffffff, 0x7ff);
    check_imm_op(&mut cpu, 0b011, 0, 0x80000000, 0x7ff);
    check_imm_op(&mut cpu, 0b011, 1, 0x7fffffff, 0x800);
    check_imm_op(&mut cpu, 0b011, 1, 0x00000000, 0xfff);
    check_imm_op(&mut cpu, 0b011, 0, 0xffffffff, 0x001);
    check_imm_op(&mut cpu, 0b011, 0, 0xffffffff, 0xfff);

    check_imm_src1_eq_dest(&mut cpu, 0b011, 1, 11, 13);
}

#[test]
fn test_xori() {
    let mut cpu = CPU::new(RAM::new(1024));

    check_imm_op(&mut cpu, 0b100, 0xff00f00f, 0x00ff0f00, 0xf0f);
    check_imm_op(&mut cpu, 0b100, 0x0ff00f00, 0x0ff00ff0, 0x0f0);
    check_imm_op(&mut cpu, 0b100, 0x00ff0ff0, 0x00ff08ff, 0x70f);
    check_imm_op(&mut cpu, 0b100, 0xf00ff0ff, 0xf00ff00f, 0x0f0);

    check_imm_src1_eq_dest(&mut cpu, 0b100, 0xff00f00f, 0xff00f700, 0x70f);
}

#[test]
fn test_srli() {
    let mut cpu = CPU::new(RAM::new(1024));

    check_imm_op(&mut cpu, 0b101, 0x80000000u32 >> 0, 0x80000000, 0);
    check_imm_op(&mut cpu, 0b101, 0x80000000u32 >> 1, 0x80000000, 1);
    check_imm_op(&mut cpu, 0b101, 0x80000000u32 >> 7, 0x80000000, 7);
    check_imm_op(&mut cpu, 0b101, 0x80000000u32 >> 14, 0x80000000, 14);
    check_imm_op(&mut cpu, 0b101, 0x80000001u32 >> 31, 0x80000001, 31);
    check_imm_op(&mut cpu, 0b101, 0xffffffffu32 >> 0, 0xffffffff, 0);
    check_imm_op(&mut cpu, 0b101, 0xffffffffu32 >> 1, 0xffffffff, 1);
    check_imm_op(&mut cpu, 0b101, 0xffffffffu32 >> 7, 0xffffffff, 7);
    check_imm_op(&mut cpu, 0b101, 0xffffffffu32 >> 14, 0xffffffff, 14);
    check_imm_op(&mut cpu, 0b101, 0xffffffffu32 >> 31, 0xffffffff, 31);
    check_imm_op(&mut cpu, 0b101, 0x21212121u32 >> 0, 0x21212121, 0);
    check_imm_op(&mut cpu, 0b101, 0x21212121u32 >> 1, 0x21212121, 1);
    check_imm_op(&mut cpu, 0b101, 0x21212121u32 >> 7, 0x21212121, 7);
    check_imm_op(&mut cpu, 0b101, 0x21212121u32 >> 14, 0x21212121, 14);
    check_imm_op(&mut cpu, 0b101, 0x21212121u32 >> 31, 0x21212121, 31);

    check_imm_src1_eq_dest(&mut cpu, 0b101, 0x01000000, 0x80000000, 7);
}

#[test]
fn test_srai() {
    let mut cpu = CPU::new(RAM::new(1024));

    check_imm_op(&mut cpu, 0b101, 0x00000000, 0x00000000, 0 | 1 << 10);
    check_imm_op(&mut cpu, 0b101, 0xc0000000, 0x80000000, 1 | 1 << 10);
    check_imm_op(&mut cpu, 0b101, 0xff000000, 0x80000000, 7 | 1 << 10);
    check_imm_op(&mut cpu, 0b101, 0xfffe0000, 0x80000000, 14 | 1 << 10);
    check_imm_op(&mut cpu, 0b101, 0xffffffff, 0x80000001, 31 | 1 << 10);
    check_imm_op(&mut cpu, 0b101, 0x7fffffff, 0x7fffffff, 0 | 1 << 10);
    check_imm_op(&mut cpu, 0b101, 0x3fffffff, 0x7fffffff, 1 | 1 << 10);
    check_imm_op(&mut cpu, 0b101, 0x00ffffff, 0x7fffffff, 7 | 1 << 10);
    check_imm_op(&mut cpu, 0b101, 0x0001ffff, 0x7fffffff, 14 | 1 << 10);
    check_imm_op(&mut cpu, 0b101, 0x00000000, 0x7fffffff, 31 | 1 << 10);
    check_imm_op(&mut cpu, 0b101, 0x81818181, 0x81818181, 0 | 1 << 10);
    check_imm_op(&mut cpu, 0b101, 0xc0c0c0c0, 0x81818181, 1 | 1 << 10);
    check_imm_op(&mut cpu, 0b101, 0xff030303, 0x81818181, 7 | 1 << 10);
    check_imm_op(&mut cpu, 0b101, 0xfffe0606, 0x81818181, 14 | 1 << 10);
    check_imm_op(&mut cpu, 0b101, 0xffffffff, 0x81818181, 31 | 1 << 10);

    check_imm_src1_eq_dest(&mut cpu, 0b101, 0xff000000, 0x80000000, 7 | 1 << 10);
}

#[test]
fn test_ori() {
    let mut cpu = CPU::new(RAM::new(1024));

    check_imm_op(&mut cpu, 0b110, 0xffffff0f, 0xff00ff00, 0xf0f);
    check_imm_op(&mut cpu, 0b110, 0x0ff00ff0, 0x0ff00ff0, 0x0f0);
    check_imm_op(&mut cpu, 0b110, 0x00ff07ff, 0x00ff00ff, 0x70f);
    check_imm_op(&mut cpu, 0b110, 0xf00ff0ff, 0xf00ff00f, 0x0f0);

    check_imm_src1_eq_dest(&mut cpu, 0b110, 0xff00fff0, 0xff00ff00, 0x0f0);
}

#[test]
fn test_andi() {
    let mut cpu = CPU::new(RAM::new(1024));

    check_imm_op(&mut cpu, 0b111, 0xff00ff00, 0xff00ff00, 0xf0f);
    check_imm_op(&mut cpu, 0b111, 0x000000f0, 0x0ff00ff0, 0x0f0);
    check_imm_op(&mut cpu, 0b111, 0x0000000f, 0x00ff00ff, 0x70f);
    check_imm_op(&mut cpu, 0b111, 0x00000000, 0xf00ff00f, 0x0f0);

    check_imm_src1_eq_dest(&mut cpu, 0b111, 0x00000000, 0xff00ff00, 0x0f0);
}

#[test]
fn test_add() {
    let mut cpu = CPU::new(RAM::new(1024));

    check_rr_op(&mut cpu, 0b000, 0x00, 0x00000000, 0x00000000, 0x00000000);
    check_rr_op(&mut cpu, 0b000, 0x00, 0x00000002, 0x00000001, 0x00000001);
    check_rr_op(&mut cpu, 0b000, 0x00, 0x0000000a, 0x00000003, 0x00000007);
    check_rr_op(&mut cpu, 0b000, 0x00, 0xffff8000, 0x00000000, 0xffff8000);
    check_rr_op(&mut cpu, 0b000, 0x00, 0x80000000, 0x80000000, 0x00000000);
    check_rr_op(&mut cpu, 0b000, 0x00, 0x7fff8000, 0x80000000, 0xffff8000);
    check_rr_op(&mut cpu, 0b000, 0x00, 0x00007fff, 0x00000000, 0x00007fff);
    check_rr_op(&mut cpu, 0b000, 0x00, 0x7fffffff, 0x7fffffff, 0x00000000);
    check_rr_op(&mut cpu, 0b000, 0x00, 0x80007ffe, 0x7fffffff, 0x00007fff);
    check_rr_op(&mut cpu, 0b000, 0x00, 0x80007fff, 0x80000000, 0x00007fff);
    check_rr_op(&mut cpu, 0b000, 0x00, 0x7fff7fff, 0x7fffffff, 0xffff8000);
    check_rr_op(&mut cpu, 0b000, 0x00, 0xffffffff, 0x00000000, 0xffffffff);
    check_rr_op(&mut cpu, 0b000, 0x00, 0x00000000, 0xffffffff, 0x00000001);
    check_rr_op(&mut cpu, 0b000, 0x00, 0xfffffffe, 0xffffffff, 0xffffffff);
    check_rr_op(&mut cpu, 0b000, 0x00, 0x80000000, 0x00000001, 0x7fffffff);

    check_rr_src1_eq_dest(&mut cpu, 0b000, 0x00, 24, 13, 11);
    check_rr_src2_eq_dest(&mut cpu, 0b000, 0x00, 25, 14, 11);
    check_rr_src12_eq_dest(&mut cpu, 0b000, 0x00, 26, 13);
}

#[test]
fn test_sub() {
    let mut cpu = CPU::new(RAM::new(1024));

    check_rr_op(&mut cpu, 0b000, 0x20, 0x00000000, 0x00000000, 0x00000000);
    check_rr_op(&mut cpu, 0b000, 0x20, 0x00000000, 0x00000001, 0x00000001);
    check_rr_op(&mut cpu, 0b000, 0x20, 0xfffffffc, 0x00000003, 0x00000007);
    check_rr_op(&mut cpu, 0b000, 0x20, 0x00008000, 0x00000000, 0xffff8000);
    check_rr_op(&mut cpu, 0b000, 0x20, 0x80000000, 0x80000000, 0x00000000);
    check_rr_op(&mut cpu, 0b000, 0x20, 0x80008000, 0x80000000, 0xffff8000);
    check_rr_op(&mut cpu, 0b000, 0x20, 0xffff8001, 0x00000000, 0x00007fff);
    check_rr_op(&mut cpu, 0b000, 0x20, 0x7fffffff, 0x7fffffff, 0x00000000);
    check_rr_op(&mut cpu, 0b000, 0x20, 0x7fff8000, 0x7fffffff, 0x00007fff);
    check_rr_op(&mut cpu, 0b000, 0x20, 0x7fff8001, 0x80000000, 0x00007fff);
    check_rr_op(&mut cpu, 0b000, 0x20, 0x80007fff, 0x7fffffff, 0xffff8000);
    check_rr_op(&mut cpu, 0b000, 0x20, 0x00000001, 0x00000000, 0xffffffff);
    check_rr_op(&mut cpu, 0b000, 0x20, 0xfffffffe, 0xffffffff, 0x00000001);
    check_rr_op(&mut cpu, 0b000, 0x20, 0x00000000, 0xffffffff, 0xffffffff);

    check_rr_src1_eq_dest(&mut cpu, 0b000, 0x20, 2, 13, 11);
    check_rr_src2_eq_dest(&mut cpu, 0b000, 0x20, 3, 14, 11);
    check_rr_src12_eq_dest(&mut cpu, 0b000, 0x20, 0, 13);
}

#[test]
fn test_sll() {
    let mut cpu = CPU::new(RAM::new(1024));

    check_rr_op(&mut cpu, 0b001, 0x00, 0x00000001, 0x00000001, 0);
    check_rr_op(&mut cpu, 0b001, 0x00, 0x00000002, 0x00000001, 1);
    check_rr_op(&mut cpu, 0b001, 0x00, 0x00000080, 0x00000001, 7);
    check_rr_op(&mut cpu, 0b001, 0x00, 0x00004000, 0x00000001, 14);
    check_rr_op(&mut cpu, 0b001, 0x00, 0x80000000, 0x00000001, 31);
    check_rr_op(&mut cpu, 0b001, 0x00, 0xffffffff, 0xffffffff, 0);
    check_rr_op(&mut cpu, 0b001, 0x00, 0xfffffffe, 0xffffffff, 1);
    check_rr_op(&mut cpu, 0b001, 0x00, 0xffffff80, 0xffffffff, 7);
    check_rr_op(&mut cpu, 0b001, 0x00, 0xffffc000, 0xffffffff, 14);
    check_rr_op(&mut cpu, 0b001, 0x00, 0x80000000, 0xffffffff, 31);
    check_rr_op(&mut cpu, 0b001, 0x00, 0x21212121, 0x21212121, 0);
    check_rr_op(&mut cpu, 0b001, 0x00, 0x42424242, 0x21212121, 1);
    check_rr_op(&mut cpu, 0b001, 0x00, 0x90909080, 0x21212121, 7);
    check_rr_op(&mut cpu, 0b001, 0x00, 0x48484000, 0x21212121, 14);
    check_rr_op(&mut cpu, 0b001, 0x00, 0x80000000, 0x21212121, 31);
    check_rr_op(&mut cpu, 0b001, 0x00, 0x21212121, 0x21212121, 0xffffffc0);
    check_rr_op(&mut cpu, 0b001, 0x00, 0x42424242, 0x21212121, 0xffffffc1);
    check_rr_op(&mut cpu, 0b001, 0x00, 0x90909080, 0x21212121, 0xffffffc7);
    check_rr_op(&mut cpu, 0b001, 0x00, 0x48484000, 0x21212121, 0xffffffce);

    check_rr_src1_eq_dest(&mut cpu, 0b001, 0x00, 0x00000080, 0x00000001, 7);
    check_rr_src2_eq_dest(&mut cpu, 0b001, 0x00, 0x00004000, 0x00000001, 14);
    check_rr_src12_eq_dest(&mut cpu, 0b001, 0x00, 24, 3);
}

#[test]
fn test_srl() {
    let mut cpu = CPU::new(RAM::new(1024));

    check_rr_op(&mut cpu, 0b101, 0x00, 0x80000000u32 >> 0, 0x80000000, 0);
    check_rr_op(&mut cpu, 0b101, 0x00, 0x80000000u32 >> 1, 0x80000000, 1);
    check_rr_op(&mut cpu, 0b101, 0x00, 0x80000000u32 >> 7, 0x80000000, 7);
    check_rr_op(&mut cpu, 0b101, 0x00, 0x80000000u32 >> 14, 0x80000000, 14);
    check_rr_op(&mut cpu, 0b101, 0x00, 0x80000001u32 >> 31, 0x80000001, 31);
    check_rr_op(&mut cpu, 0b101, 0x00, 0xffffffffu32 >> 0, 0xffffffff, 0);
    check_rr_op(&mut cpu, 0b101, 0x00, 0xffffffffu32 >> 1, 0xffffffff, 1);
    check_rr_op(&mut cpu, 0b101, 0x00, 0xffffffffu32 >> 7, 0xffffffff, 7);
    check_rr_op(&mut cpu, 0b101, 0x00, 0xffffffffu32 >> 14, 0xffffffff, 14);
    check_rr_op(&mut cpu, 0b101, 0x00, 0xffffffffu32 >> 31, 0xffffffff, 31);
    check_rr_op(&mut cpu, 0b101, 0x00, 0x21212121u32 >> 0, 0x21212121, 0);
    check_rr_op(&mut cpu, 0b101, 0x00, 0x21212121u32 >> 1, 0x21212121, 1);
    check_rr_op(&mut cpu, 0b101, 0x00, 0x21212121u32 >> 7, 0x21212121, 7);
    check_rr_op(&mut cpu, 0b101, 0x00, 0x21212121u32 >> 14, 0x21212121, 14);
    check_rr_op(&mut cpu, 0b101, 0x00, 0x21212121u32 >> 31, 0x21212121, 31);
    check_rr_op(&mut cpu, 0b101, 0x00, 0x21212121, 0x21212121, 0xffffffc0);
    check_rr_op(&mut cpu, 0b101, 0x00, 0x10909090, 0x21212121, 0xffffffc1);
    check_rr_op(&mut cpu, 0b101, 0x00, 0x00424242, 0x21212121, 0xffffffc7);
    check_rr_op(&mut cpu, 0b101, 0x00, 0x00008484, 0x21212121, 0xffffffce);
    check_rr_op(&mut cpu, 0b101, 0x00, 0x00000000, 0x21212121, 0xffffffff);

    check_rr_src1_eq_dest(&mut cpu, 0b101, 0x00, 0x01000000, 0x80000000, 7);
    check_rr_src2_eq_dest(&mut cpu, 0b101, 0x00, 0x00020000, 0x80000000, 14);
    check_rr_src12_eq_dest(&mut cpu, 0b101, 0x00, 0, 7);
}

#[test]
fn test_sra() {
    let mut cpu = CPU::new(RAM::new(1024));

    check_rr_op(&mut cpu, 0b101, 0x20, 0x80000000, 0x80000000, 0);
    check_rr_op(&mut cpu, 0b101, 0x20, 0xc0000000, 0x80000000, 1);
    check_rr_op(&mut cpu, 0b101, 0x20, 0xff000000, 0x80000000, 7);
    check_rr_op(&mut cpu, 0b101, 0x20, 0xfffe0000, 0x80000000, 14);
    check_rr_op(&mut cpu, 0b101, 0x20, 0xffffffff, 0x80000001, 31);
    check_rr_op(&mut cpu, 0b101, 0x20, 0x7fffffff, 0x7fffffff, 0);
    check_rr_op(&mut cpu, 0b101, 0x20, 0x3fffffff, 0x7fffffff, 1);
    check_rr_op(&mut cpu, 0b101, 0x20, 0x00ffffff, 0x7fffffff, 7);
    check_rr_op(&mut cpu, 0b101, 0x20, 0x0001ffff, 0x7fffffff, 14);
    check_rr_op(&mut cpu, 0b101, 0x20, 0x00000000, 0x7fffffff, 31);
    check_rr_op(&mut cpu, 0b101, 0x20, 0x81818181, 0x81818181, 0);
    check_rr_op(&mut cpu, 0b101, 0x20, 0xc0c0c0c0, 0x81818181, 1);
    check_rr_op(&mut cpu, 0b101, 0x20, 0xff030303, 0x81818181, 7);
    check_rr_op(&mut cpu, 0b101, 0x20, 0xfffe0606, 0x81818181, 14);
    check_rr_op(&mut cpu, 0b101, 0x20, 0xffffffff, 0x81818181, 31);
    check_rr_op(&mut cpu, 0b101, 0x20, 0x81818181, 0x81818181, 0xffffffc0);
    check_rr_op(&mut cpu, 0b101, 0x20, 0xc0c0c0c0, 0x81818181, 0xffffffc1);
    check_rr_op(&mut cpu, 0b101, 0x20, 0xff030303, 0x81818181, 0xffffffc7);
    check_rr_op(&mut cpu, 0b101, 0x20, 0xfffe0606, 0x81818181, 0xffffffce);
    check_rr_op(&mut cpu, 0b101, 0x20, 0xffffffff, 0x81818181, 0xffffffff);

    check_rr_src1_eq_dest(&mut cpu, 0b101, 0x20, 0xff000000, 0x80000000, 7);
    check_rr_src2_eq_dest(&mut cpu, 0b101, 0x20, 0xfffe0000, 0x80000000, 14);
    check_rr_src12_eq_dest(&mut cpu, 0b101, 0x20, 0, 7);
}

fn check_lui_then_sra(cpu: &mut CPU, result: u32, imm: u32, sra: u32) {
    let raw_instruction: u32 = ((imm & 0xFFFFF) << 12) | (1 << 7) | 0x37;
    let instr = Lui::parse(raw_instruction).expect("couldn't parse instruction");
    instr.execute(cpu);

    let sra_amount: u32 = sra | (1 << 10);
    let sra_raw_instruction: u32 =
        ((sra_amount & 0xFFF) << 20) | (1 << 15) | (1 << 7) | (0b101 << 12) | 0x13;
    let sra_instr = OpImm::parse(sra_raw_instruction).expect("couldn't parse SRA instruction");
    sra_instr.execute(cpu);

    assert_eq!(cpu.get_register(1), result);
}

#[test]
fn test_lui() {
    let mut cpu = CPU::new(RAM::new(1024));

    check_lui_then_sra(&mut cpu, 0x00000000, 0x00000, 0);
    check_lui_then_sra(&mut cpu, 0xfffff800, 0xfffff, 1);
    check_lui_then_sra(&mut cpu, 0x000007ff, 0x7ffff, 20);
    check_lui_then_sra(&mut cpu, 0xfffff800, 0x80000, 20);

    let raw_instruction: u32 = ((0x80000 & 0xFFFFF) << 12) | (0 << 7) | 0x37;
    let instr = Lui::parse(raw_instruction).expect("couldn't parse instruction");
    instr.execute(&mut cpu);
    assert_eq!(cpu.get_register(0), 0);
}
