//! The multiply/divide extension, driven through decoded instructions
//! against a small machine.

use riscv_emu::cpu::CPU;
use riscv_emu::ram::RAM;
use riscv_emu::rv32m::Op;

fn check_muldiv(cpu: &mut CPU, instr: &Op, result: u32, val1: u32, val2: u32) {
    cpu.set_register(2, val1);
    cpu.set_register(3, val2);
    instr.execute(cpu);
    assert_eq!(cpu.get_register(1), result);
}


#[test]
fn test_mul() {
    let mut cpu = CPU::new(RAM::new(1024));

    let instr = Op::parse(0b0000001_00011_00010_000_00001_0110011)
        .expect("couldn't parse MUL x1, x2, x3");

    check_muldiv(&mut cpu, &instr, 0x00001200, 0x00007e00, 0xb6db6db7);
    check_muldiv(&mut cpu, &instr, 0x00001240, 0x00007fc0, 0xb6db6db7);
    check_muldiv(&mut cpu, &instr, 0x00000000, 0x00000000, 0x00000000);
    check_muldiv(&mut cpu, &instr, 0x00000001, 0x00000001, 0x00000001);
    check_muldiv(&mut cpu, &instr, 0x00000015, 0x00000003, 0x00000007);
    check_muldiv(&mut cpu, &instr, 0x00000000, 0x00000000, 0xffff8000);
    check_muldiv(&mut cpu, &instr, 0x00000000, 0x80000000, 0x00000000);
    check_muldiv(&mut cpu, &instr, 0x00000000, 0x80000000, 0xffff8000);
    check_muldiv(&mut cpu, &instr, 0x0000ff7f, 0xaaaaaaab, 0x0002fe7d);
    check_muldiv(&mut cpu, &instr, 0x0000ff7f, 0x0002fe7d, 0xaaaaaaab);
    check_muldiv(&mut cpu, &instr, 0x00000000, 0xff000000, 0xff000000);
    check_muldiv(&mut cpu, &instr, 0x00000001, 0xffffffff, 0xffffffff);
    check_muldiv(&mut cpu, &instr, 0xffffffff, 0xffffffff, 0x00000001);
    check_muldiv(&mut cpu, &instr, 0xffffffff, 0x00000001, 0xffffffff);
}

#[test]
fn test_mulh() {
    let mut cpu = CPU::new(RAM::new(1024));

    let instr = Op::parse(0b0000001_00011_00010_001_00001_0110011)
        .expect("couldn't parse MULH x1, x2, x3");

    check_muldiv(&mut cpu, &instr, 0x00000000, 0x00000000, 0x00000000);
    check_muldiv(&mut cpu, &instr, 0x00000000, 0x00000001, 0x00000001);
    check_muldiv(&mut cpu, &instr, 0x00000000, 0x00000003, 0x00000007);
    check_muldiv(&mut cpu, &instr, 0x00000000, 0x00000000, 0xffff8000);
    check_muldiv(&mut cpu, &instr, 0x00000000, 0x80000000, 0x00000000);
    check_muldiv(&mut cpu, &instr, 0x00000000, 0x80000000, 0x00000000);
    check_muldiv(&mut cpu, &instr, 0xffff0081, 0xaaaaaaab, 0x0002fe7d);
    check_muldiv(&mut cpu, &instr, 0xffff0081, 0x0002fe7d, 0xaaaaaaab);
    check_muldiv(&mut cpu, &instr, 0x00010000, 0xff000000, 0xff000000);
    check_muldiv(&mut cpu, &instr, 0x00000000, 0xffffffff, 0xffffffff);
    check_muldiv(&mut cpu, &instr, 0xffffffff, 0xffffffff, 0x00000001);
    check_muldiv(&mut cpu, &instr, 0xffffffff, 0x00000001, 0xffffffff);
}

#[test]
fn test_mulhsu() {
    let mut cpu = CPU::new(RAM::new(1024));

    let instr = Op::parse(0b0000001_00011_00010_010_00001_0110011)
        .expect("couldn't parse MULHSU x1, x2, x3");

    check_muldiv(&mut cpu, &instr, 0x00000000, 0x00000000, 0x00000000);
    check_muldiv(&mut cpu, &instr, 0x00000000, 0x00000001, 0x00000001);
    check_muldiv(&mut cpu, &instr, 0x00000000, 0x00000003, 0x00000007);
    check_muldiv(&mut cpu, &instr, 0x00000000, 0x00000000, 0xffff8000);
    check_muldiv(&mut cpu, &instr, 0x00000000, 0x80000000, 0x00000000);
    check_muldiv(&mut cpu, &instr, 0x80004000, 0x80000000, 0xffff8000);
    check_muldiv(&mut cpu, &instr, 0xffff0081, 0xaaaaaaab, 0x0002fe7d);
    check_muldiv(&mut cpu, &instr, 0x0001fefe, 0x0002fe7d, 0xaaaaaaab);
    check_muldiv(&mut cpu, &instr, 0xff010000, 0xff000000, 0xff000000);
    check_muldiv(&mut cpu, &instr, 0xffffffff, 0xffffffff, 0xffffffff);
    check_muldiv(&mut cpu, &instr, 0xffffffff, 0xffffffff, 0x00000001);
    check_muldiv(&mut cpu, &instr, 0x00000000, 0x00000001, 0xffffffff);
}

#[test]
fn test_mulhu() {
    let mut cpu = CPU::new(RAM::new(1024));

    let instr = Op::parse(0b0000001_00011_00010_011_00001_0110011)
        .expect("couldn't parse MULHU x1, x2, x3");

    check_muldiv(&mut cpu, &instr, 0x00000000, 0x00000000, 0x00000000);
    check_muldiv(&mut cpu, &instr, 0x00000000, 0x00000001, 0x00000001);
    check_muldiv(&mut cpu, &instr, 0x00000000, 0x00000003, 0x00000007);
    check_muldiv(&mut cpu, &instr, 0x00000000, 0x00000000, 0xffff8000);
    check_muldiv(&mut cpu, &instr, 0x00000000, 0x80000000, 0x00000000);
    check_muldiv(&mut cpu, &instr, 0x7fffc000, 0x80000000, 0xffff8000);
    check_muldiv(&mut cpu, &instr, 0x0001fefe, 0xaaaaaaab, 0x0002fe7d);
    check_muldiv(&mut cpu, &instr, 0x0001fefe, 0x0002fe7d, 0xaaaaaaab);
    check_muldiv(&mut cpu, &instr, 0xfe010000, 0xff000000, 0xff000000);
    check_muldiv(&mut cpu, &instr, 0xfffffffe, 0xffffffff, 0xffffffff);
    check_muldiv(&mut cpu, &instr, 0x00000000, 0xffffffff, 0x00000001);
    check_muldiv(&mut cpu, &instr, 0x00000000, 0x00000001, 0xffffffff);
}

#[test]
fn test_div() {
    let mut cpu = CPU::new(RAM::new(1024));

    let instr = Op::parse(0b0000001_00011_00010_100_00001_0110011)
        .expect("couldn't parse DIV x1, x2, x3");

    check_muldiv(&mut cpu, &instr, 3, 20, 6);
    check_muldiv(&mut cpu, &instr, (-3i32) as u32, (-20i32) as u32, 6);
    check_muldiv(&mut cpu, &instr, (-3i32) as u32, 20, (-6i32) as u32);
    check_muldiv(&mut cpu, &instr, 3, (-20i32) as u32, (-6i32) as u32);
    check_muldiv(&mut cpu, &instr, i32::MIN as u32, i32::MIN as u32, 1);
    check_muldiv(&mut cpu, &instr, i32::MIN as u32, i32::MIN as u32, (-1i32) as u32);
    check_muldiv(&mut cpu, &instr, (-1i32) as u32, i32::MIN as u32, 0);
    check_muldiv(&mut cpu, &instr, (-1i32) as u32, 1, 0);
    check_muldiv(&mut cpu, &instr, (-1i32) as u32, 0, 0);
}

#[test]
fn test_divu() {
    let mut cpu = CPU::new(RAM::new(1024));

    let instr = Op::parse(0b0000001_00011_00010_101_00001_0110011)
        .expect("couldn't parse DIVU x1, x2, x3");

    check_muldiv(&mut cpu, &instr, 3, 20, 6);
    check_muldiv(&mut cpu, &instr, 715827879, (-20i32) as u32, 6);
    check_muldiv(&mut cpu, &instr, 0, 20, (-6i32) as u32);
    check_muldiv(&mut cpu, &instr, 0, (-20i32) as u32, (-6i32) as u32);
    check_muldiv(&mut cpu, &instr, i32::MIN as u32, i32::MIN as u32, 1);
    check_muldiv(&mut cpu, &instr, 0, i32::MIN as u32, (-1i32) as u32);
    check_muldiv(&mut cpu, &instr, (-1i32) as u32, i32::MIN as u32, 0);
    check_muldiv(&mut cpu, &instr, (-1i32) as u32, 1, 0);
    check_muldiv(&mut cpu, &instr, (-1i32) as u32, 0, 0);
}

#[test]
fn test_rem() {
    let mut cpu = CPU::new(RAM::new(1024));

    let instr = Op::parse(0b0000001_00011_00010_110_00001_0110011)
        .expect("couldn't parse REM x1, x2, x3");

    check_muldiv(&mut cpu, &instr, 2, 20, 6);
    check_muldiv(&mut cpu, &instr, (-2i32) as u32, (-20i32) as u32, 6);
    check_muldiv(&mut cpu, &instr, 2, 20, (-6i32) as u32);
    check_muldiv(&mut cpu, &instr, (-2i32) as u32, (-20i32) as u32, (-6i32) as u32);
    check_muldiv(&mut cpu, &instr, 0, i32::MIN as u32, 1);
    check_muldiv(&mut cpu, &instr, 0, i32::MIN as u32, (-1i32) as u32);
    check_muldiv(&mut cpu, &instr, i32::MIN as u32, i32::MIN as u32, 0);
    check_muldiv(&mut cpu, &instr, 1, 1, 0);
    check_muldiv(&mut cpu, &instr, 0, 0, 0);
}

#[test]
fn test_remu() {
    let mut cpu = CPU::new(RAM::new(1024));

    let instr = Op::parse(0b0000001_00011_00010_111_00001_0110011)
        .expect("couldn't parse REMU x1, x2, x3");

    check_muldiv(&mut cpu, &instr, 2, 20, 6);
    check_muldiv(&mut cpu, &instr, 2, (-20i32) as u32, 6);
    check_muldiv(&mut cpu, &instr, 20, 20, (-6i32) as u32);
    check_muldiv(&mut cpu, &instr, (-20i32) as u32, (-20i32) as u32, (-6i32) as u32);
    check_muldiv(&mut cpu, &instr, 0, i32::MIN as u32, 1);
    check_muldiv(&mut cpu, &instr, i32::MIN as u32, i32::MIN as u32, (-1i32) as u32);
    check_muldiv(&mut cpu, &instr, i32::MIN as u32, i32::MIN as u32, 0);
    check_muldiv(&mut cpu, &instr, 1, 1, 0);
    check_muldiv(&mut cpu, &instr, 0, 0, 0);
}
