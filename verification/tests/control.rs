use riscv_engine::instructions::Outcome;
use riscv_engine::num::As;
use riscv_engine::ops::float::{FloatOp, FloatRequest};
use riscv_engine::registers::{RegFile, Register};
use riscv_engine::{step, Step};

fn host(request: FloatRequest) -> u32 {
    let a = f32::from_bits(request.a);
    let b = f32::from_bits(request.b);
    let c = f32::from_bits(request.c);
    match request.op {
        FloatOp::Fadd => (a + b).to_bits(),
        FloatOp::Fsub => (a - b).to_bits(),
        FloatOp::Fmul => (a * b).to_bits(),
        FloatOp::Fdiv => (a / b).to_bits(),
        FloatOp::Fsqrt => a.sqrt().to_bits(),
        FloatOp::Fcvtsw => (request.a as i32 as f32).to_bits(),
        FloatOp::Fcvtswu => (request.a as f32).to_bits(),
        FloatOp::Fmadd => a.mul_add(b, c).to_bits(),
        FloatOp::Fmsub => (a * b - c).to_bits(),
        FloatOp::Fnmsub => (-(a * b) + c).to_bits(),
        FloatOp::Fnmadd => (-(a * b) - c).to_bits(),
    }
}

fn run<T: Step>(encoded: u32, regfile: &mut RegFile<T>, pc: &mut T, memory: &mut [u8])
where
    u32: As<T>,
{
    match step(encoded, regfile, pc, memory).unwrap() {
        Outcome::Retired => {}
        Outcome::Pending(request) => request.complete(host(request), &mut regfile.fregs),
    }
}

#[test]
fn test_lui() {
    let mut memory = [0u8; 0];
    let mut regfile = RegFile::default();
    let mut program_counter = 0u32;
    let instruction = 0b00000000000000000001_01100_0110111;
    run(instruction, &mut regfile, &mut program_counter, &mut memory);
    let r12 = regfile.xregs.get(Register::X12);
    assert_eq!(r12, 0b1000000000000);
}

#[test]
fn test_auipc() {
    let mut memory = [0u8; 0];
    let mut regfile = RegFile::default();
    let mut program_counter = 4u32;
    let instruction = 0b00000000000000000001_01100_0010111;
    run(instruction, &mut regfile, &mut program_counter, &mut memory);
    let r12 = regfile.xregs.get(Register::X12);
    assert_eq!(r12, 0b1000000000000 + 4);
}

#[test]
fn test_jal() {
    let mut memory = [0u8; 0];
    let mut regfile = RegFile::default();
    let mut program_counter = 4u32;
    let instruction = 0b0_0000000000_0_00000000_01100_1101111;
    run(instruction, &mut regfile, &mut program_counter, &mut memory);
    let r12 = regfile.xregs.get(Register::X12);
    assert_eq!(r12, 8);
    assert_eq!(program_counter, 4);
}

#[test]
fn test_jalr() {
    let mut memory = [0u8; 0];
    let mut regfile = RegFile::default();
    *regfile.xregs.get_mut(Register::X13) = 12;
    let mut program_counter = 4u32;
    let instruction = 0b000000000000_01101_000_01100_1100111;
    run(instruction, &mut regfile, &mut program_counter, &mut memory);
    let r12 = regfile.xregs.get(Register::X12);
    assert_eq!(r12, 8);
    assert_eq!(program_counter, 12 & !0b1);
}

#[test]
fn test_branch_beq() {
    let mut memory = [0u8; 0];
    let mut regfile = RegFile::default();
    *regfile.xregs.get_mut(Register::X12) = 32;
    *regfile.xregs.get_mut(Register::X13) = 32;
    let mut program_counter = 0u32;
    let instruction = 0b0000000_01101_01100_000_00100_1100011;
    run(instruction, &mut regfile, &mut program_counter, &mut memory);
    assert_eq!(program_counter, 4);
}

#[test]
fn test_branch_bne() {
    let mut memory = [0u8; 0];
    let mut regfile = RegFile::default();
    *regfile.xregs.get_mut(Register::X12) = 32;
    *regfile.xregs.get_mut(Register::X13) = 64;
    let mut program_counter = 0u32;
    let instruction = 0b0000000_01101_01100_001_00100_1100011;
    run(instruction, &mut regfile, &mut program_counter, &mut memory);
    assert_eq!(program_counter, 4);
}

#[test]
fn test_branch_blt() {
    let mut memory = [0u8; 0];
    let mut regfile = RegFile::default();
    *regfile.xregs.get_mut(Register::X12) = 32;
    *regfile.xregs.get_mut(Register::X13) = 64;
    let mut program_counter = 0u32;
    let instruction = 0b0000000_01101_01100_100_00100_1100011;
    run(instruction, &mut regfile, &mut program_counter, &mut memory);
    assert_eq!(program_counter, 4);
}

#[test]
fn test_branch_bltu() {
    let mut memory = [0u8; 0];
    let mut regfile = RegFile::default();
    *regfile.xregs.get_mut(Register::X12) = 32;
    *regfile.xregs.get_mut(Register::X13) = 64;
    let mut program_counter = 0u32;
    let instruction = 0b0000000_01101_01100_110_00100_1100011;
    run(instruction, &mut regfile, &mut program_counter, &mut memory);
    assert_eq!(program_counter, 4);
}

#[test]
fn test_branch_bge() {
    let mut memory = [0u8; 0];
    let mut regfile = RegFile::default();
    *regfile.xregs.get_mut(Register::X12) = 64;
    *regfile.xregs.get_mut(Register::X13) = 64;
    let mut program_counter = 0u32;
    let instruction = 0b0000000_01101_01100_101_00100_1100011;
    run(instruction, &mut regfile, &mut program_counter, &mut memory);
    assert_eq!(program_counter, 4);
}

#[test]
fn test_branch_bgeu() {
    let mut memory = [0u8; 0];
    let mut regfile = RegFile::default();
    *regfile.xregs.get_mut(Register::X12) = 65;
    *regfile.xregs.get_mut(Register::X13) = 64;
    let mut program_counter = 0u32;
    let instruction = 0b0000000_01101_01100_111_00100_1100011;
    run(instruction, &mut regfile, &mut program_counter, &mut memory);
    assert_eq!(program_counter, 4);
}

#[test]
fn test_csr_csrrw() {
    let mut memory = [0u8; 0];
    let mut regfile = RegFile::default();
    *regfile.xregs.get_mut(Register::X13) = 12;
    *regfile.csrs.get_mut(1).unwrap() = 24;
    let mut program_counter = 0u32;
    let instruction = 0b000000000001_01101_001_01100_1110011;
    run(instruction, &mut regfile, &mut program_counter, &mut memory);
    let r12 = regfile.xregs.get(Register::X12);
    let csr1 = regfile.csrs.get(1);
    assert_eq!(r12, 24);
    assert_eq!(csr1, 12);
}

#[test]
fn test_csr_csrrs() {
    let mut memory = [0u8; 0];
    let mut regfile = RegFile::default();
    *regfile.xregs.get_mut(Register::X13) = 12;
    *regfile.csrs.get_mut(1).unwrap() = 24;
    let mut program_counter = 0u32;
    let instruction = 0b000000000001_01101_010_01100_1110011;
    run(instruction, &mut regfile, &mut program_counter, &mut memory);
    let r12 = regfile.xregs.get(Register::X12);
    let csr1 = regfile.csrs.get(1);
    assert_eq!(r12, 24);
    assert_eq!(csr1, 24 | 12);
}

#[test]
fn test_csr_csrrc() {
    let mut memory = [0u8; 0];
    let mut regfile = RegFile::default();
    *regfile.xregs.get_mut(Register::X13) = 12;
    *regfile.csrs.get_mut(1).unwrap() = 24;
    let mut program_counter = 0u32;
    let instruction = 0b000000000001_01101_011_01100_1110011;
    run(instruction, &mut regfile, &mut program_counter, &mut memory);
    let r12 = regfile.xregs.get(Register::X12);
    let csr1 = regfile.csrs.get(1);
    assert_eq!(r12, 24);
    assert_eq!(csr1, 24 & !12);
}

#[test]
fn test_csr_csrrwi() {
    let mut memory = [0u8; 0];
    let mut regfile = RegFile::default();
    *regfile.csrs.get_mut(1).unwrap() = 24;
    let mut program_counter = 0u32;
    let instruction = 0b000000000001_01101_101_01100_1110011;
    run(instruction, &mut regfile, &mut program_counter, &mut memory);
    let r12 = regfile.xregs.get(Register::X12);
    let csr1 = regfile.csrs.get(1);
    assert_eq!(r12, 24);
    assert_eq!(csr1, 13);
}

#[test]
fn test_csr_csrrsi() {
    let mut memory = [0u8; 0];
    let mut regfile = RegFile::default();
    *regfile.csrs.get_mut(1).unwrap() = 24;
    let mut program_counter = 0u32;
    let instruction = 0b000000000001_01101_110_01100_1110011;
    run(instruction, &mut regfile, &mut program_counter, &mut memory);
    let r12 = regfile.xregs.get(Register::X12);
    let csr1 = regfile.csrs.get(1);
    assert_eq!(r12, 24);
    assert_eq!(csr1, 24 | 13);
}

#[test]
fn test_csr_csrrci() {
    let mut memory = [0u8; 0];
    let mut regfile = RegFile::default();
    *regfile.csrs.get_mut(1).unwrap() = 24;
    let mut program_counter = 0u32;
    let instruction = 0b000000000001_01101_111_01100_1110011;
    run(instruction, &mut regfile, &mut program_counter, &mut memory);
    let r12 = regfile.xregs.get(Register::X12);
    let csr1 = regfile.csrs.get(1);
    assert_eq!(r12, 24);
    assert_eq!(csr1, 24 & !13);
}

#[test]
#[should_panic]
fn test_csr_readonly_write() {
    let mut memory = [0u8; 0];
    let mut regfile = RegFile::default();
    *regfile.xregs.get_mut(Register::X13) = 12;
    let mut program_counter = 0u32;
    let instruction = 0b110000000001_01101_001_01100_1110011;
    run(instruction, &mut regfile, &mut program_counter, &mut memory);
}

#[test]
fn test_csr_readonly_write_rs_zero() {
    let mut memory = [0u8; 0];
    let mut regfile = RegFile::default();
    *regfile.xregs.get_mut(Register::X12) = 24;
    let mut program_counter = 0u32;
    let instruction = 0b110000000001_00000_001_01100_1110011;
    run(instruction, &mut regfile, &mut program_counter, &mut memory);
    let r12 = regfile.xregs.get(Register::X12);
    let csr1 = regfile.csrs.get(3073);
    assert_eq!(r12, 0);
    assert_eq!(csr1, 0);
}
