use riscv_engine::instructions::Outcome;
use riscv_engine::mem::{read, U32};
use riscv_engine::num::As;
use riscv_engine::ops::float::{FloatOp, FloatRequest};
use riscv_engine::registers::{RegFile, Register};
use riscv_engine::{step, Step};

fn host(request: FloatRequest) -> u32 {
    let a = f32::from_bits(request.a);
    let b = f32::from_bits(request.b);
    let c = f32::from_bits(request.c);
    match request.op {
        FloatOp::Fadd => (a + b).to_bits(),
        FloatOp::Fsub => (a - b).to_bits(),
        FloatOp::Fmul => (a * b).to_bits(),
        FloatOp::Fdiv => (a / b).to_bits(),
        FloatOp::Fsqrt => a.sqrt().to_bits(),
        FloatOp::Fcvtsw => (request.a as i32 as f32).to_bits(),
        FloatOp::Fcvtswu => (request.a as f32).to_bits(),
        FloatOp::Fmadd => a.mul_add(b, c).to_bits(),
        FloatOp::Fmsub => (a * b - c).to_bits(),
        FloatOp::Fnmsub => (-(a * b) + c).to_bits(),
        FloatOp::Fnmadd => (-(a * b) - c).to_bits(),
    }
}

fn run<T: Step>(encoded: u32, regfile: &mut RegFile<T>, pc: &mut T, memory: &mut [u8])
where
    u32: As<T>,
{
    match step(encoded, regfile, pc, memory).unwrap() {
        Outcome::Retired => {}
        Outcome::Pending(request) => request.complete(host(request), &mut regfile.fregs),
    }
}

#[test]
fn test_float_s_fadd() {
    let mut memory = [0u8; 0];
    let mut regfile = RegFile::default();
    *regfile.fregs.get_mut(Register::X13) = 1.2f32.to_bits();
    *regfile.fregs.get_mut(Register::X14) = 1.3f32.to_bits();
    let mut program_counter = 0u32;
    let instruction = 0b0000000_01110_01101_000_01100_1010011;
    run(instruction, &mut regfile, &mut program_counter, &mut memory);
    let r12 = regfile.fregs.get(Register::X12);
    assert_eq!(r12, 2.5f32.to_bits());
    assert_eq!(program_counter, 4);
}

#[test]
fn test_float_s_fsub() {
    let mut memory = [0u8; 0];
    let mut regfile = RegFile::default();
    *regfile.fregs.get_mut(Register::X13) = 3.0f32.to_bits();
    *regfile.fregs.get_mut(Register::X14) = 0.9f32.to_bits();
    let mut program_counter = 0u32;
    let instruction = 0b0000100_01110_01101_000_01100_1010011;
    run(instruction, &mut regfile, &mut program_counter, &mut memory);
    let r12 = regfile.fregs.get(Register::X12);
    assert_eq!(r12, 2.1f32.to_bits());
}

#[test]
fn test_float_s_fmul() {
    let mut memory = [0u8; 0];
    let mut regfile = RegFile::default();
    *regfile.fregs.get_mut(Register::X13) = 3.2f32.to_bits();
    *regfile.fregs.get_mut(Register::X14) = 2.0f32.to_bits();
    let mut program_counter = 0u32;
    let instruction = 0b0001000_01110_01101_000_01100_1010011;
    run(instruction, &mut regfile, &mut program_counter, &mut memory);
    let r12 = regfile.fregs.get(Register::X12);
    assert_eq!(r12, 6.4f32.to_bits());
}

#[test]
fn test_float_s_fdiv() {
    let mut memory = [0u8; 0];
    let mut regfile = RegFile::default();
    *regfile.fregs.get_mut(Register::X13) = 6.4f32.to_bits();
    *regfile.fregs.get_mut(Register::X14) = 2.0f32.to_bits();
    let mut program_counter = 0u32;
    let instruction = 0b0001100_01110_01101_000_01100_1010011;
    run(instruction, &mut regfile, &mut program_counter, &mut memory);
    let r12 = regfile.fregs.get(Register::X12);
    assert_eq!(r12, 3.2f32.to_bits());
}

#[test]
fn test_float_s_fsqrt() {
    let mut memory = [0u8; 0];
    let mut regfile = RegFile::default();
    *regfile.fregs.get_mut(Register::X13) = 16.0f32.to_bits();
    let mut program_counter = 0u32;
    let instruction = 0b0101100_00000_01101_000_01100_1010011;
    run(instruction, &mut regfile, &mut program_counter, &mut memory);
    let r12 = regfile.fregs.get(Register::X12);
    assert_eq!(r12, 4.0f32.to_bits());
}

#[test]
fn test_float_s_fmin() {
    let mut memory = [0u8; 0];
    let mut regfile = RegFile::default();
    *regfile.fregs.get_mut(Register::X13) = 6.4f32.to_bits();
    *regfile.fregs.get_mut(Register::X14) = 2.0f32.to_bits();
    let mut program_counter = 0u32;
    let instruction = 0b0010100_01110_01101_000_01100_1010011;
    run(instruction, &mut regfile, &mut program_counter, &mut memory);
    let r12 = regfile.fregs.get(Register::X12);
    assert_eq!(r12, 2.0f32.to_bits());
}

#[test]
fn test_float_s_fmax() {
    let mut memory = [0u8; 0];
    let mut regfile = RegFile::default();
    *regfile.fregs.get_mut(Register::X13) = 6.4f32.to_bits();
    *regfile.fregs.get_mut(Register::X14) = 2.0f32.to_bits();
    let mut program_counter = 0u32;
    let instruction = 0b0010100_01110_01101_001_01100_1010011;
    run(instruction, &mut regfile, &mut program_counter, &mut memory);
    let r12 = regfile.fregs.get(Register::X12);
    assert_eq!(r12, 6.4f32.to_bits());
}

#[test]
fn test_float_s_fsgnj() {
    let mut memory = [0u8; 0];
    let mut regfile = RegFile::default();
    *regfile.fregs.get_mut(Register::X13) = 6.0f32.to_bits();
    *regfile.fregs.get_mut(Register::X14) = (-1.0f32).to_bits();
    let mut program_counter = 0u32;
    let instruction = 0b0010000_01110_01101_000_01100_1010011;
    run(instruction, &mut regfile, &mut program_counter, &mut memory);
    let r12 = regfile.fregs.get(Register::X12);
    assert_eq!(r12, (-6.0f32).to_bits());
}

#[test]
fn test_float_s_fsgnjn() {
    let mut memory = [0u8; 0];
    let mut regfile = RegFile::default();
    *regfile.fregs.get_mut(Register::X13) = 6.0f32.to_bits();
    *regfile.fregs.get_mut(Register::X14) = (-1.0f32).to_bits();
    let mut program_counter = 0u32;
    let instruction = 0b0010000_01110_01101_001_01100_1010011;
    run(instruction, &mut regfile, &mut program_counter, &mut memory);
    let r12 = regfile.fregs.get(Register::X12);
    assert_eq!(r12, 6.0f32.to_bits());
}

#[test]
fn test_float_s_fsgnjx() {
    let mut memory = [0u8; 0];
    let mut regfile = RegFile::default();
    *regfile.fregs.get_mut(Register::X13) = 6.0f32.to_bits();
    *regfile.fregs.get_mut(Register::X14) = (-1.0f32).to_bits();
    let mut program_counter = 0u32;
    let instruction = 0b0010000_01110_01101_010_01100_1010011;
    run(instruction, &mut regfile, &mut program_counter, &mut memory);
    let r12 = regfile.fregs.get(Register::X12);
    assert_eq!(r12, (-6.0f32).to_bits());
}

#[test]
fn test_float_s_fsgnjx_02() {
    let mut memory = [0u8; 0];
    let mut regfile = RegFile::default();
    *regfile.fregs.get_mut(Register::X13) = (-6.0f32).to_bits();
    *regfile.fregs.get_mut(Register::X14) = (-1.0f32).to_bits();
    let mut program_counter = 0u32;
    let instruction = 0b0010000_01110_01101_010_01100_1010011;
    run(instruction, &mut regfile, &mut program_counter, &mut memory);
    let r12 = regfile.fregs.get(Register::X12);
    assert_eq!(r12, 6.0f32.to_bits());
}

#[test]
fn test_float_s_feq() {
    let mut memory = [0u8; 0];
    let mut regfile = RegFile::default();
    *regfile.fregs.get_mut(Register::X13) = (-6.0f32).to_bits();
    *regfile.fregs.get_mut(Register::X14) = (-6.0f32).to_bits();
    let mut program_counter = 0u32;
    let instruction = 0b1010000_01110_01101_010_01100_1010011;
    run(instruction, &mut regfile, &mut program_counter, &mut memory);
    let r12 = regfile.xregs.get(Register::X12);
    assert_eq!(r12, 1);
}

#[test]
fn test_float_s_fne() {
    let mut memory = [0u8; 0];
    let mut regfile = RegFile::default();
    *regfile.fregs.get_mut(Register::X13) = (-6.0f32).to_bits();
    *regfile.fregs.get_mut(Register::X14) = (6.0f32).to_bits();
    let mut program_counter = 0u32;
    let instruction = 0b1010000_01110_01101_010_01100_1010011;
    run(instruction, &mut regfile, &mut program_counter, &mut memory);
    let r12 = regfile.xregs.get(Register::X12);
    assert_eq!(r12, 0);
}

#[test]
fn test_float_s_flt() {
    let mut memory = [0u8; 0];
    let mut regfile = RegFile::default();
    *regfile.fregs.get_mut(Register::X13) = (-6.0f32).to_bits();
    *regfile.fregs.get_mut(Register::X14) = (6.0f32).to_bits();
    let mut program_counter = 0u32;
    let instruction = 0b1010000_01110_01101_001_01100_1010011;
    run(instruction, &mut regfile, &mut program_counter, &mut memory);
    let r12 = regfile.xregs.get(Register::X12);
    assert_eq!(r12, 1);
}

#[test]
fn test_float_s_fgt() {
    let mut memory = [0u8; 0];
    let mut regfile = RegFile::default();
    *regfile.fregs.get_mut(Register::X13) = (6.0f32).to_bits();
    *regfile.fregs.get_mut(Register::X14) = (1.0f32).to_bits();
    let mut program_counter = 0u32;
    let instruction = 0b1010000_01110_01101_001_01100_1010011;
    run(instruction, &mut regfile, &mut program_counter, &mut memory);
    let r12 = regfile.xregs.get(Register::X12);
    assert_eq!(r12, 0);
}

#[test]
fn test_float_s_fle() {
    let mut memory = [0u8; 0];
    let mut regfile = RegFile::default();
    *regfile.fregs.get_mut(Register::X13) = (1.0f32).to_bits();
    *regfile.fregs.get_mut(Register::X14) = (1.0f32).to_bits();
    let mut program_counter = 0u32;
    let instruction = 0b1010000_01110_01101_000_01100_1010011;
    run(instruction, &mut regfile, &mut program_counter, &mut memory);
    let r12 = regfile.xregs.get(Register::X12);
    assert_eq!(r12, 1);
}

#[test]
fn test_float_s_fle_02() {
    let mut memory = [0u8; 0];
    let mut regfile = RegFile::default();
    *regfile.fregs.get_mut(Register::X13) = (1.0f32).to_bits();
    *regfile.fregs.get_mut(Register::X14) = (2.0f32).to_bits();
    let mut program_counter = 0u32;
    let instruction = 0b1010000_01110_01101_000_01100_1010011;
    run(instruction, &mut regfile, &mut program_counter, &mut memory);
    let r12 = regfile.xregs.get(Register::X12);
    assert_eq!(r12, 1);
}

#[test]
fn test_float_s_fge() {
    let mut memory = [0u8; 0];
    let mut regfile = RegFile::default();
    *regfile.fregs.get_mut(Register::X13) = (3.0f32).to_bits();
    *regfile.fregs.get_mut(Register::X14) = (1.0f32).to_bits();
    let mut program_counter = 0u32;
    let instruction = 0b1010000_01110_01101_000_01100_1010011;
    run(instruction, &mut regfile, &mut program_counter, &mut memory);
    let r12 = regfile.xregs.get(Register::X12);
    assert_eq!(r12, 0);
}

#[test]
fn test_float_s_fcvtws() {
    let mut memory = [0u8; 0];
    let mut regfile = RegFile::default();
    *regfile.fregs.get_mut(Register::X13) = (-3.1f32).to_bits();
    let mut program_counter = 0u32;
    let instruction = 0b1100000_00000_01101_000_01100_1010011;
    run(instruction, &mut regfile, &mut program_counter, &mut memory);
    let r12 = regfile.xregs.get(Register::X12);
    assert_eq!(r12, -3i32 as u32);
}

#[test]
fn test_float_s_fcvtwus() {
    let mut memory = [0u8; 0];
    let mut regfile = RegFile::default();
    *regfile.fregs.get_mut(Register::X13) = (-3.1f32).to_bits();
    let mut program_counter = 0u32;
    let instruction = 0b1100000_00001_01101_000_01100_1010011;
    run(instruction, &mut regfile, &mut program_counter, &mut memory);
    let r12 = regfile.xregs.get(Register::X12);
    assert_eq!(r12, 0);
}

#[test]
fn test_float_s_fmvxw() {
    let mut memory = [0u8; 0];
    let mut regfile = RegFile::default();
    *regfile.fregs.get_mut(Register::X13) = (-3.1f32).to_bits();
    let mut program_counter = 0u32;
    let instruction = 0b1110000_00000_01101_000_01100_1010011;
    run(instruction, &mut regfile, &mut program_counter, &mut memory);
    let r12 = regfile.xregs.get(Register::X12);
    assert_eq!(r12, (-3.1f32).to_bits());
}

#[test]
fn test_float_s_fclass() {
    let mut memory = [0u8; 0];
    let mut regfile = RegFile::default();
    *regfile.fregs.get_mut(Register::X13) = (3.1f32).to_bits();
    let mut program_counter = 0u32;
    let instruction = 0b1110000_00000_01101_001_01100_1010011;
    run(instruction, &mut regfile, &mut program_counter, &mut memory);
    let r12 = regfile.xregs.get(Register::X12);
    assert_eq!(r12, 1 << 6);
}

#[test]
fn test_float_s_fclass_02() {
    let mut memory = [0u8; 0];
    let mut regfile = RegFile::default();
    *regfile.fregs.get_mut(Register::X13) = (-3.1f32).to_bits();
    let mut program_counter = 0u32;
    let instruction = 0b1110000_00000_01101_001_01100_1010011;
    run(instruction, &mut regfile, &mut program_counter, &mut memory);
    let r12 = regfile.xregs.get(Register::X12);
    assert_eq!(r12, 1 << 1);
}

#[test]
fn test_float_s_fclass_03() {
    let mut memory = [0u8; 0];
    let mut regfile = RegFile::default();
    *regfile.fregs.get_mut(Register::X13) = (f32::INFINITY).to_bits();
    let mut program_counter = 0u32;
    let instruction = 0b1110000_00000_01101_001_01100_1010011;
    run(instruction, &mut regfile, &mut program_counter, &mut memory);
    let r12 = regfile.xregs.get(Register::X12);
    assert_eq!(r12, 1 << 7);
}

#[test]
fn test_float_s_fclass_04() {
    let mut memory = [0u8; 0];
    let mut regfile = RegFile::default();
    *regfile.fregs.get_mut(Register::X13) = (f32::INFINITY).to_bits() | 1 << 31;
    let mut program_counter = 0u32;
    let instruction = 0b1110000_00000_01101_001_01100_1010011;
    run(instruction, &mut regfile, &mut program_counter, &mut memory);
    let r12 = regfile.xregs.get(Register::X12);
    assert_eq!(r12, 1 << 0);
}

#[test]
fn test_float_s_fcvtsw() {
    let mut memory = [0u8; 0];
    let mut regfile = RegFile::default();
    *regfile.xregs.get_mut(Register::X13) = -12i32 as u32;
    let mut program_counter = 0u32;
    let instruction = 0b1101000_00000_01101_000_01100_1010011;
    run(instruction, &mut regfile, &mut program_counter, &mut memory);
    let r12 = regfile.fregs.get(Register::X12);
    assert_eq!(r12, (-12.0f32).to_bits());
}

#[test]
fn test_float_s_fcvtswu() {
    let mut memory = [0u8; 0];
    let mut regfile = RegFile::default();
    *regfile.xregs.get_mut(Register::X13) = 12;
    let mut program_counter = 0u32;
    let instruction = 0b1101000_00001_01101_000_01100_1010011;
    run(instruction, &mut regfile, &mut program_counter, &mut memory);
    let r12 = regfile.fregs.get(Register::X12);
    assert_eq!(r12, 12.0f32.to_bits());
}

#[test]
fn test_float_s_fmvwx() {
    let mut memory = [0u8; 0];
    let mut regfile = RegFile::default();
    *regfile.xregs.get_mut(Register::X13) = 37;
    let mut program_counter = 0u32;
    let instruction = 0b1111000_00000_01101_000_01100_1010011;
    run(instruction, &mut regfile, &mut program_counter, &mut memory);
    let r12 = regfile.fregs.get(Register::X12);
    assert_eq!(r12, 37);
}

#[test]
fn test_fload_word() {
    let mut memory = [0u8; 64];
    let mut regfile = RegFile::default();
    *regfile.xregs.get_mut(Register::X13) = 32;
    memory[32..36].copy_from_slice(&[255, 255, 0, 0]);
    let mut program_counter = 4u32;
    let instruction = 0b000000000000_01101_010_01100_0000111;
    run(instruction, &mut regfile, &mut program_counter, &mut memory);
    let r12 = regfile.fregs.get(Register::X12);
    assert_eq!(r12, f32::from_le_bytes([255, 255, 0, 0]).to_bits());
    assert_eq!(program_counter, 8);
}

#[test]
fn test_fstore_word() {
    let mut memory = [0u8; 64];
    let mut regfile = RegFile::default();
    *regfile.fregs.get_mut(Register::X12) = u32::from_le_bytes([255, 255, 0, 0]);
    *regfile.xregs.get_mut(Register::X13) = 32;
    let mut program_counter = 4u32;
    let instruction = 0b0000000_01100_01101_010_00000_0100111;
    run(instruction, &mut regfile, &mut program_counter, &mut memory);
    let data = read::<U32>(&memory, 32).unwrap().as_u32();
    assert_eq!(data, f32::from_le_bytes([255, 255, 0, 0]).to_bits());
    assert_eq!(program_counter, 8);
}

#[test]
fn test_fmadd() {
    let mut memory = [0u8; 0];
    let mut regfile = RegFile::default();
    *regfile.fregs.get_mut(Register::X13) = 1.2f32.to_bits();
    *regfile.fregs.get_mut(Register::X14) = 1.2f32.to_bits();
    *regfile.fregs.get_mut(Register::X15) = 1.3f32.to_bits();
    let mut program_counter = 0u32;
    let instruction = 0b01111_00_01110_01101_000_01100_1000011;
    run(instruction, &mut regfile, &mut program_counter, &mut memory);
    let r12 = regfile.fregs.get(Register::X12);
    assert_eq!(r12, 2.74f32.to_bits());
    assert_eq!(program_counter, 4);
}

#[test]
fn test_fmsub() {
    let mut memory = [0u8; 0];
    let mut regfile = RegFile::default();
    *regfile.fregs.get_mut(Register::X13) = 1.2f32.to_bits();
    *regfile.fregs.get_mut(Register::X14) = 1.2f32.to_bits();
    *regfile.fregs.get_mut(Register::X15) = 0.2f32.to_bits();
    let mut program_counter = 0u32;
    let instruction = 0b01111_00_01110_01101_000_01100_1000111;
    run(instruction, &mut regfile, &mut program_counter, &mut memory);
    let r12 = regfile.fregs.get(Register::X12);
    assert_eq!(r12, 1.24f32.to_bits());
    assert_eq!(program_counter, 4);
}

#[test]
fn test_fnmsub() {
    let mut memory = [0u8; 0];
    let mut regfile = RegFile::default();
    *regfile.fregs.get_mut(Register::X13) = 1.2f32.to_bits();
    *regfile.fregs.get_mut(Register::X14) = 1.2f32.to_bits();
    *regfile.fregs.get_mut(Register::X15) = 0.0f32.to_bits();
    let mut program_counter = 0u32;
    let instruction = 0b01111_00_01110_01101_000_01100_1001011;
    run(instruction, &mut regfile, &mut program_counter, &mut memory);
    let r12 = regfile.fregs.get(Register::X12);
    assert_eq!(r12, (-1.44f32).to_bits());
    assert_eq!(program_counter, 4);
}

#[test]
fn test_fnmadd() {
    let mut memory = [0u8; 0];
    let mut regfile = RegFile::default();
    *regfile.fregs.get_mut(Register::X13) = 1.2f32.to_bits();
    *regfile.fregs.get_mut(Register::X14) = 1.2f32.to_bits();
    *regfile.fregs.get_mut(Register::X15) = 1.3f32.to_bits();
    let mut program_counter = 0u32;
    let instruction = 0b01111_00_01110_01101_000_01100_1001111;
    run(instruction, &mut regfile, &mut program_counter, &mut memory);
    let r12 = regfile.fregs.get(Register::X12);
    assert_eq!(r12, (-2.74f32).to_bits());
    assert_eq!(program_counter, 4);
}
