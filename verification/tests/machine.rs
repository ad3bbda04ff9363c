use riscv_engine::error::Error;
use riscv_engine::instructions::Outcome;
use riscv_engine::num::As;
use riscv_engine::ops::float::{FloatOp, FloatRequest};
use riscv_engine::registers::{RegFile, Register, Registers};
use riscv_engine::{fetch, fetch_and_step, step, Step};

fn host(request: FloatRequest) -> u32 {
    let a = f32::from_bits(request.a);
    let b = f32::from_bits(request.b);
    let c = f32::from_bits(request.c);
    match request.op {
        FloatOp::Fadd => (a + b).to_bits(),
        FloatOp::Fsub => (a - b).to_bits(),
        FloatOp::Fmul => (a * b).to_bits(),
        FloatOp::Fdiv => (a / b).to_bits(),
        FloatOp::Fsqrt => a.sqrt().to_bits(),
        FloatOp::Fcvtsw => (request.a as i32 as f32).to_bits(),
        FloatOp::Fcvtswu => (request.a as f32).to_bits(),
        FloatOp::Fmadd => a.mul_add(b, c).to_bits(),
        FloatOp::Fmsub => (a * b - c).to_bits(),
        FloatOp::Fnmsub => (-(a * b) + c).to_bits(),
        FloatOp::Fnmadd => (-(a * b) - c).to_bits(),
    }
}

fn run<T: Step>(encoded: u32, regfile: &mut RegFile<T>, pc: &mut T, memory: &mut [u8])
where
    u32: As<T>,
{
    match step(encoded, regfile, pc, memory).unwrap() {
        Outcome::Retired => {}
        Outcome::Pending(request) => request.complete(host(request), &mut regfile.fregs),
    }
}

/// Encodes an instruction in register format.
fn r_type(funct7: u32, rs2: u32, rs1: u32, funct3: u32, rd: u32, opcode: u32) -> u32 {
    (funct7 << 25) | (rs2 << 20) | (rs1 << 15) | (funct3 << 12) | (rd << 7) | opcode
}

/// Encodes an instruction in immediate format.
fn i_type(imm: u32, rs1: u32, funct3: u32, rd: u32, opcode: u32) -> u32 {
    ((imm & 0xFFF) << 20) | (rs1 << 15) | (funct3 << 12) | (rd << 7) | opcode
}

/// Encodes an instruction in store format.
fn s_type(imm: u32, rs2: u32, rs1: u32, funct3: u32, opcode: u32) -> u32 {
    (((imm >> 5) & 0x7F) << 25) | (rs2 << 20) | (rs1 << 15) | (funct3 << 12) | ((imm & 0x1F) << 7)
        | opcode
}

/// Encodes a branch with the given offset.
fn b_type(offset: i32, rs2: u32, rs1: u32, funct3: u32) -> u32 {
    let imm = offset as u32;
    (((imm >> 12) & 1) << 31) | (((imm >> 5) & 0x3F) << 25) | (rs2 << 20) | (rs1 << 15)
        | (funct3 << 12) | (((imm >> 1) & 0xF) << 8) | (((imm >> 11) & 1) << 7) | 0b1100011
}

/// Encodes a jump with the given offset.
fn j_type(offset: i32, rd: u32) -> u32 {
    let imm = offset as u32;
    (((imm >> 20) & 1) << 31) | (((imm >> 1) & 0x3FF) << 21) | (((imm >> 11) & 1) << 20)
        | (((imm >> 12) & 0xFF) << 12) | (rd << 7) | 0b1101111
}

fn fails<T: Step + PartialEq + std::fmt::Debug + Copy>(encoded: u32, regfile: &mut RegFile<T>, pc: T, memory: &mut [u8]) {
    let mut counter = pc;
    let before = memory.to_vec();
    assert_eq!(step(encoded, regfile, &mut counter, memory), Err(Error::InvalidOpCode));
    assert_eq!(counter, pc);
    assert_eq!(before, memory.to_vec());
}

#[test]
fn register_zero_always_reads_zero() {
    let mut regfile: RegFile<u32> = RegFile::default();
    let mut pc = 0x100u32;
    let mut memory = [0u8; 0];
    // A jump with the zero register as destination links nothing.
    run(j_type(8, 0), &mut regfile, &mut pc, &mut memory);
    assert_eq!(pc, 0x108);
    for index in 0..32u8 {
        let field = riscv_engine::decode::U5::new(index).unwrap();
        let selector = riscv_engine::registers::ZeroOrRegister::from_u5(field);
        assert_eq!(selector.fetch(&regfile.xregs), 0);
    }
    // An addition with register 0 as a source adds zero.
    *regfile.xregs.get_mut(Register::X5) = 77;
    run(r_type(0, 0, 5, 0, 6, 0b0110011), &mut regfile, &mut pc, &mut memory);
    assert_eq!(regfile.xregs.get(Register::X6), 77);
}

#[test]
fn destination_zero_is_rejected_by_arithmetic() {
    let mut regfile: RegFile<u32> = RegFile::default();
    let mut memory = [0u8; 16];
    fails(r_type(0, 1, 2, 0, 0, 0b0110011), &mut regfile, 0, &mut memory);
    fails(i_type(1, 2, 0, 0, 0b0010011), &mut regfile, 0, &mut memory);
    fails(i_type(1, 2, 1, 0, 0b0010011), &mut regfile, 0, &mut memory);
    fails(i_type(0, 0, 2, 0, 0b0000011), &mut regfile, 0, &mut memory);
    fails(0x0000_1037, &mut regfile, 0, &mut memory);
    fails(0x0000_1017, &mut regfile, 0, &mut memory);
    let mut wide: RegFile<u64> = RegFile::default();
    fails(r_type(0, 1, 2, 0, 0, 0b0111011), &mut wide, 0u64, &mut memory);
    fails(i_type(1, 2, 0, 0, 0b0011011), &mut wide, 0u64, &mut memory);
    fails(i_type(1, 2, 1, 0, 0b0011011), &mut wide, 0u64, &mut memory);
}

#[test]
fn unknown_keys_are_rejected() {
    let mut regfile: RegFile<u32> = RegFile::default();
    let mut memory = [0u8; 16];
    // Register format with a funct7 that selects nothing.
    fails(r_type(0b1111111, 1, 2, 0, 3, 0b0110011), &mut regfile, 4, &mut memory);
    fails(r_type(0b0100000, 1, 2, 1, 3, 0b0110011), &mut regfile, 4, &mut memory);
    // Branch with funct3 010 or 011.
    fails(b_type(8, 1, 2, 0b010), &mut regfile, 4, &mut memory);
    fails(b_type(8, 1, 2, 0b011), &mut regfile, 4, &mut memory);
    // Load and store with a funct3 that selects nothing.
    fails(i_type(0, 0, 0b111, 3, 0b0000011), &mut regfile, 4, &mut memory);
    fails(s_type(0, 1, 0, 0b100, 0b0100011), &mut regfile, 4, &mut memory);
    // Shift with upper bits that are not canonical.
    fails(i_type(0b0000010_00011, 2, 0b001, 3, 0b0010011), &mut regfile, 4, &mut memory);
    fails(i_type(0b0100000_00011, 2, 0b001, 3, 0b0010011), &mut regfile, 4, &mut memory);
    fails(i_type(0b1000000_00011, 2, 0b101, 3, 0b0010011), &mut regfile, 4, &mut memory);
}

#[test]
fn unsupported_groups_are_rejected() {
    let mut regfile: RegFile<u32> = RegFile::default();
    let mut memory = [0u8; 16];
    // Memory fence.
    fails(0x0FF0_000F, &mut regfile, 8, &mut memory);
    // Environment call and breakpoint.
    fails(0x0000_0073, &mut regfile, 8, &mut memory);
    fails(0x0010_0073, &mut regfile, 8, &mut memory);
    // System instruction with funct3 100.
    fails(i_type(1, 1, 0b100, 2, 0b1110011), &mut regfile, 8, &mut memory);
    // Low seven bits that select no group.
    fails(0x0000_0000, &mut regfile, 8, &mut memory);
    fails(0xFFFF_FFFF, &mut regfile, 8, &mut memory);
    fails(0x0000_007F, &mut regfile, 8, &mut memory);
    let mut wide: RegFile<u64> = RegFile::default();
    fails(0x0FF0_000F, &mut wide, 8u64, &mut memory);
    fails(0x0000_0073, &mut wide, 8u64, &mut memory);
}

#[test]
fn word_groups_exist_only_in_64_bit_mode() {
    let mut regfile: RegFile<u32> = RegFile::default();
    let mut memory = [0u8; 16];
    fails(r_type(0, 1, 2, 0, 3, 0b0111011), &mut regfile, 0, &mut memory);
    fails(i_type(1, 2, 0, 3, 0b0011011), &mut regfile, 0, &mut memory);
    fails(i_type(1, 2, 1, 3, 0b0011011), &mut regfile, 0, &mut memory);
    // Double-word loads and stores, and the zero-extending word load.
    fails(i_type(0, 0, 0b011, 3, 0b0000011), &mut regfile, 0, &mut memory);
    fails(i_type(0, 0, 0b110, 3, 0b0000011), &mut regfile, 0, &mut memory);
    fails(s_type(0, 1, 0, 0b011, 0b0100011), &mut regfile, 0, &mut memory);
}

#[test]
fn shift_amounts_by_mode() {
    let mut narrow: RegFile<u32> = RegFile::default();
    let mut wide: RegFile<u64> = RegFile::default();
    let mut memory = [0u8; 0];
    *narrow.xregs.get_mut(Register::X2) = 1;
    *wide.xregs.get_mut(Register::X2) = 1;
    // A shift by 31 is legal in both modes.
    let mut pc32 = 0u32;
    run(i_type(31, 2, 0b001, 3, 0b0010011), &mut narrow, &mut pc32, &mut memory);
    assert_eq!(narrow.xregs.get(Register::X3), 1 << 31);
    // A shift by 32 or more is legal in 64-bit mode alone.
    fails(i_type(32, 2, 0b001, 3, 0b0010011), &mut narrow, 4, &mut memory);
    let mut pc64 = 0u64;
    run(i_type(63, 2, 0b001, 3, 0b0010011), &mut wide, &mut pc64, &mut memory);
    assert_eq!(wide.xregs.get(Register::X3), 1 << 63);
    run(i_type(0b010000_100000, 3, 0b101, 4, 0b0010011), &mut wide, &mut pc64, &mut memory);
    assert_eq!(wide.xregs.get(Register::X4), 0xFFFF_FFFF_8000_0000);
    // The word shifts take five bits.
    fails(i_type(32, 2, 0b001, 3, 0b0011011), &mut wide, 0u64, &mut memory);
    run(i_type(31, 2, 0b001, 5, 0b0011011), &mut wide, &mut pc64, &mut memory);
    assert_eq!(wide.xregs.get(Register::X5), 0xFFFF_FFFF_8000_0000);
}

#[test]
fn memory_failures_leave_the_state() {
    let mut regfile: RegFile<u32> = RegFile::default();
    let mut memory = [0xAAu8; 8];
    *regfile.xregs.get_mut(Register::X1) = 6;
    *regfile.xregs.get_mut(Register::X2) = 0x1122_3344;
    // A word at address 6 needs bytes 6 to 9.
    fails(i_type(0, 1, 0b010, 3, 0b0000011), &mut regfile, 0, &mut memory);
    fails(s_type(0, 2, 1, 0b010, 0b0100011), &mut regfile, 0, &mut memory);
    assert_eq!(regfile.xregs.get(Register::X3), 0);
    // A half word at address 6 fits.
    let mut pc = 0u32;
    run(s_type(0, 2, 1, 0b001, 0b0100011), &mut regfile, &mut pc, &mut memory);
    assert_eq!(memory, [0xAA, 0xAA, 0xAA, 0xAA, 0xAA, 0xAA, 0x44, 0x33]);
    // An address that wraps below zero is far outside the memory.
    fails(i_type(0xFF0, 0, 0b000, 3, 0b0000011), &mut regfile, 0, &mut memory);
    let mut wide: RegFile<u64> = RegFile::default();
    fails(i_type(0xFF0, 0, 0b000, 3, 0b0000011), &mut wide, 0u64, &mut memory);
    fails(s_type(0xFFF, 1, 0, 0b000, 0b0100011), &mut wide, 0u64, &mut memory);
}

#[test]
fn store_then_load_round_trip() {
    let mut regfile: RegFile<u64> = RegFile::default();
    let mut memory = [0u8; 64];
    let mut pc = 0u64;
    *regfile.xregs.get_mut(Register::X1) = 19;
    *regfile.xregs.get_mut(Register::X2) = 0x8877_6655_C433_A2F1;
    // Stores of one, two, four and eight bytes at unaligned addresses.
    run(s_type(0, 2, 1, 0b000, 0b0100011), &mut regfile, &mut pc, &mut memory);
    run(s_type(2, 2, 1, 0b001, 0b0100011), &mut regfile, &mut pc, &mut memory);
    run(s_type(6, 2, 1, 0b010, 0b0100011), &mut regfile, &mut pc, &mut memory);
    run(s_type(14, 2, 1, 0b011, 0b0100011), &mut regfile, &mut pc, &mut memory);
    assert_eq!(memory[19], 0xF1);
    assert_eq!(&memory[21..23], &[0xF1, 0xA2]);
    assert_eq!(&memory[25..29], &[0xF1, 0xA2, 0x33, 0xC4]);
    assert_eq!(&memory[33..41], &[0xF1, 0xA2, 0x33, 0xC4, 0x55, 0x66, 0x77, 0x88]);
    // Zero-extending loads give the stored bits back.
    run(i_type(0, 1, 0b100, 3, 0b0000011), &mut regfile, &mut pc, &mut memory);
    run(i_type(2, 1, 0b101, 4, 0b0000011), &mut regfile, &mut pc, &mut memory);
    run(i_type(6, 1, 0b110, 5, 0b0000011), &mut regfile, &mut pc, &mut memory);
    run(i_type(14, 1, 0b011, 6, 0b0000011), &mut regfile, &mut pc, &mut memory);
    assert_eq!(regfile.xregs.get(Register::X3), 0xF1);
    assert_eq!(regfile.xregs.get(Register::X4), 0xA2F1);
    assert_eq!(regfile.xregs.get(Register::X5), 0xC433_A2F1);
    assert_eq!(regfile.xregs.get(Register::X6), 0x8877_6655_C433_A2F1);
    // Sign-extending loads copy the top bit of what was loaded.
    run(i_type(0, 1, 0b000, 7, 0b0000011), &mut regfile, &mut pc, &mut memory);
    run(i_type(2, 1, 0b001, 8, 0b0000011), &mut regfile, &mut pc, &mut memory);
    run(i_type(6, 1, 0b010, 9, 0b0000011), &mut regfile, &mut pc, &mut memory);
    assert_eq!(regfile.xregs.get(Register::X7), 0xFFFF_FFFF_FFFF_FFF1);
    assert_eq!(regfile.xregs.get(Register::X8), 0xFFFF_FFFF_FFFF_A2F1);
    assert_eq!(regfile.xregs.get(Register::X9), 0xFFFF_FFFF_C433_A2F1);
    assert_eq!(pc, 44);
}

#[test]
fn loads_sign_extend_in_32_bit_mode() {
    let mut regfile: RegFile<u32> = RegFile::default();
    let mut memory = [0x80u8, 0xFF, 0x7F, 0x80, 0x01, 0x02, 0x03, 0x84];
    let mut pc = 0u32;
    run(i_type(0, 0, 0b000, 1, 0b0000011), &mut regfile, &mut pc, &mut memory);
    run(i_type(0, 0, 0b100, 2, 0b0000011), &mut regfile, &mut pc, &mut memory);
    run(i_type(2, 0, 0b001, 3, 0b0000011), &mut regfile, &mut pc, &mut memory);
    run(i_type(2, 0, 0b101, 4, 0b0000011), &mut regfile, &mut pc, &mut memory);
    run(i_type(4, 0, 0b010, 5, 0b0000011), &mut regfile, &mut pc, &mut memory);
    assert_eq!(regfile.xregs.get(Register::X1), 0xFFFF_FF80);
    assert_eq!(regfile.xregs.get(Register::X2), 0x80);
    assert_eq!(regfile.xregs.get(Register::X3), 0xFFFF_807F);
    assert_eq!(regfile.xregs.get(Register::X4), 0x807F);
    assert_eq!(regfile.xregs.get(Register::X5), 0x8403_0201);
}

#[test]
fn branches_taken_and_not_taken() {
    let mut regfile: RegFile<u32> = RegFile::default();
    let mut memory = [0u8; 0];
    *regfile.xregs.get_mut(Register::X1) = -1i32 as u32;
    *regfile.xregs.get_mut(Register::X2) = 1;
    let cases: [(u32, bool); 6] = [
        (0b000, false),
        (0b001, true),
        (0b100, true),
        (0b101, false),
        (0b110, false),
        (0b111, true),
    ];
    for (funct3, taken) in cases {
        let mut pc = 0x1000u32;
        run(b_type(-16, 2, 1, funct3), &mut regfile, &mut pc, &mut memory);
        assert_eq!(pc, if taken { 0x1000 - 16 } else { 0x1004 }, "funct3 {funct3:#b}");
        let mut pc = 0x1000u32;
        run(b_type(4094, 2, 1, funct3), &mut regfile, &mut pc, &mut memory);
        assert_eq!(pc, if taken { 0x1000 + 4094 } else { 0x1004 }, "funct3 {funct3:#b}");
    }
    // The program counter wraps.
    let mut pc = 8u32;
    run(b_type(-4096, 0, 0, 0b000), &mut regfile, &mut pc, &mut memory);
    assert_eq!(pc, 8u32.wrapping_sub(4096));
    let mut wide: RegFile<u64> = RegFile::default();
    let mut pc = u64::MAX - 3;
    run(b_type(8, 0, 0, 0b001), &mut wide, &mut pc, &mut memory);
    assert_eq!(pc, 0);
}

#[test]
fn jumps_link_the_next_instruction() {
    let mut regfile: RegFile<u32> = RegFile::default();
    let mut memory = [0u8; 0];
    let mut pc = 0x2000u32;
    run(j_type(-0x1000, 1), &mut regfile, &mut pc, &mut memory);
    assert_eq!(pc, 0x1000);
    assert_eq!(regfile.xregs.get(Register::X1), 0x2004);
    run(j_type(0xFFFFE, 2), &mut regfile, &mut pc, &mut memory);
    assert_eq!(pc, 0x1000 + 0xFFFFE);
    assert_eq!(regfile.xregs.get(Register::X2), 0x1004);
    // A jump through a register clears the lowest bit of the target, and
    // reads its source before it writes its destination.
    *regfile.xregs.get_mut(Register::X5) = 0x3001;
    let mut pc = 0x40u32;
    run(i_type(2, 5, 0, 5, 0b1100111), &mut regfile, &mut pc, &mut memory);
    assert_eq!(pc, 0x3002);
    assert_eq!(regfile.xregs.get(Register::X5), 0x44);
    let mut pc = 0x40u32;
    run(i_type(0xFFF, 0, 0, 0, 0b1100111), &mut regfile, &mut pc, &mut memory);
    assert_eq!(pc, 0xFFFF_FFFE);
}

#[test]
fn upper_immediates_sign_extend_in_64_bit_mode() {
    let mut regfile: RegFile<u64> = RegFile::default();
    let mut memory = [0u8; 0];
    let mut pc = 0x10u64;
    run(0x8000_00B7, &mut regfile, &mut pc, &mut memory);
    assert_eq!(regfile.xregs.get(Register::X1), 0xFFFF_FFFF_8000_0000);
    run(0xFFFF_F117, &mut regfile, &mut pc, &mut memory);
    assert_eq!(regfile.xregs.get(Register::X2), 0x14u64.wrapping_sub(0x1000));
    let mut narrow: RegFile<u32> = RegFile::default();
    let mut pc = 0x10u32;
    run(0x8000_00B7, &mut narrow, &mut pc, &mut memory);
    assert_eq!(narrow.xregs.get(Register::X1), 0x8000_0000);
    run(0xFFFF_F117, &mut narrow, &mut pc, &mut memory);
    assert_eq!(narrow.xregs.get(Register::X2), 0x14u32.wrapping_sub(0x1000));
    assert_eq!(pc, 0x18);
}

#[test]
fn control_registers_with_zero_source_are_only_read() {
    let mut memory = [0u8; 0];
    // The register forms with the zero register as source, and the set and
    // clear forms with the immediate zero.
    for funct3 in [0b001u32, 0b010, 0b011, 0b110, 0b111] {
        let mut regfile: RegFile<u32> = RegFile::default();
        *regfile.csrs.get_mut(0x300).unwrap() = 0xABCD;
        *regfile.xregs.get_mut(Register::X7) = 99;
        let mut pc = 0u32;
        run(i_type(0x300, 0, funct3, 7, 0b1110011), &mut regfile, &mut pc, &mut memory);
        assert_eq!(regfile.xregs.get(Register::X7), 0xABCD);
        assert_eq!(regfile.csrs.get(0x300), 0xABCD);
        assert_eq!(pc, 4);
        // A read-only register can be read in the same way.
        run(i_type(0xC01, 0, funct3, 7, 0b1110011), &mut regfile, &mut pc, &mut memory);
        assert_eq!(regfile.xregs.get(Register::X7), 0);
        assert_eq!(regfile.csrs.get(0xC01), 0);
    }
}

#[test]
fn write_of_immediate_zero_writes() {
    let mut memory = [0u8; 0];
    // csrrwi x12, 0x001, 0: the register receives zero.
    let mut regfile: RegFile<u32> = RegFile::default();
    *regfile.csrs.get_mut(1).unwrap() = 24;
    let mut pc = 0u32;
    assert_eq!(step(0x0010_5673, &mut regfile, &mut pc, &mut memory), Ok(Outcome::Retired));
    assert_eq!(regfile.xregs.get(Register::X12), 24);
    assert_eq!(regfile.csrs.get(1), 0);
    assert_eq!(pc, 4);
    // The same in a word of 64 bits.
    let mut wide: RegFile<u64> = RegFile::default();
    *wide.csrs.get_mut(0x300).unwrap() = u64::MAX;
    let mut pc = 8u64;
    run(i_type(0x300, 0, 0b101, 7, 0b1110011), &mut wide, &mut pc, &mut memory);
    assert_eq!(wide.xregs.get(Register::X7), u64::MAX);
    assert_eq!(wide.csrs.get(0x300), 0);
    assert_eq!(pc, 12);
    // At a read-only address the write is not suppressed, so the step fails
    // and nothing changes.
    for addr in [0xC00u32, 0xC01, 0xFFF] {
        let mut regfile: RegFile<u32> = RegFile::default();
        *regfile.xregs.get_mut(Register::X12) = 5;
        fails(i_type(addr, 0, 0b101, 12, 0b1110011), &mut regfile, 16, &mut memory);
        assert_eq!(regfile.xregs.get(Register::X12), 5);
        assert_eq!(regfile.csrs.get(addr as usize), 0);
    }
}

#[test]
fn set_and_clear_of_immediate_zero_do_not_write() {
    let mut memory = [0u8; 0];
    for funct3 in [0b110u32, 0b111] {
        let mut regfile: RegFile<u32> = RegFile::default();
        *regfile.csrs.get_mut(1).unwrap() = 24;
        let mut pc = 0u32;
        run(i_type(1, 0, funct3, 12, 0b1110011), &mut regfile, &mut pc, &mut memory);
        assert_eq!(regfile.xregs.get(Register::X12), 24);
        assert_eq!(regfile.csrs.get(1), 24);
        // A read-only register can be read with them.
        run(i_type(0xC01, 0, funct3, 13, 0b1110011), &mut regfile, &mut pc, &mut memory);
        assert_eq!(regfile.xregs.get(Register::X13), 0);
        assert_eq!(pc, 8);
    }
}

#[test]
fn control_registers_reject_writes_to_read_only() {
    let mut memory = [0u8; 0];
    for funct3 in [0b001u32, 0b010, 0b011, 0b101, 0b110, 0b111] {
        for addr in [0xC00u32, 0xC01, 0xD23, 0xFFF] {
            let mut regfile: RegFile<u64> = RegFile::default();
            *regfile.xregs.get_mut(Register::X3) = 1;
            *regfile.xregs.get_mut(Register::X7) = 5;
            fails(i_type(addr, 3, funct3, 7, 0b1110011), &mut regfile, 16u64, &mut memory);
            assert_eq!(regfile.xregs.get(Register::X7), 5);
        }
    }
    let mut regfile: RegFile<u32> = RegFile::default();
    assert!(regfile.csrs.get_mut(0xBFF).is_some());
    assert!(regfile.csrs.get_mut(0xC00).is_none());
    assert!(regfile.csrs.get_mut(0xFFF).is_none());
    assert!(regfile.csrs.get_mut(0).is_some());
    // The destination may not be register 0.
    fails(i_type(0x300, 3, 0b001, 0, 0b1110011), &mut regfile, 0, &mut memory);
    fails(i_type(0x300, 0, 0b010, 0, 0b1110011), &mut regfile, 0, &mut memory);
}

#[test]
fn control_register_operations() {
    let mut memory = [0u8; 0];
    let mut regfile: RegFile<u64> = RegFile::default();
    let mut pc = 0u64;
    *regfile.csrs.get_mut(0x7C0).unwrap() = 0b1100;
    *regfile.xregs.get_mut(Register::X1) = 0b1010;
    run(i_type(0x7C0, 1, 0b010, 2, 0b1110011), &mut regfile, &mut pc, &mut memory);
    assert_eq!(regfile.xregs.get(Register::X2), 0b1100);
    assert_eq!(regfile.csrs.get(0x7C0), 0b1110);
    run(i_type(0x7C0, 1, 0b011, 3, 0b1110011), &mut regfile, &mut pc, &mut memory);
    assert_eq!(regfile.xregs.get(Register::X3), 0b1110);
    assert_eq!(regfile.csrs.get(0x7C0), 0b0100);
    run(i_type(0x7C0, 1, 0b001, 4, 0b1110011), &mut regfile, &mut pc, &mut memory);
    assert_eq!(regfile.xregs.get(Register::X4), 0b0100);
    assert_eq!(regfile.csrs.get(0x7C0), 0b1010);
    // The immediate forms take the source field itself, zero-extended.
    run(i_type(0x7C0, 31, 0b101, 5, 0b1110011), &mut regfile, &mut pc, &mut memory);
    assert_eq!(regfile.xregs.get(Register::X5), 0b1010);
    assert_eq!(regfile.csrs.get(0x7C0), 31);
    run(i_type(0x7C0, 0b00110, 0b111, 6, 0b1110011), &mut regfile, &mut pc, &mut memory);
    assert_eq!(regfile.csrs.get(0x7C0), 0b11001);
    run(i_type(0x7C0, 0b00110, 0b110, 6, 0b1110011), &mut regfile, &mut pc, &mut memory);
    assert_eq!(regfile.csrs.get(0x7C0), 0b11111);
    // The source is read before the destination is written.
    *regfile.xregs.get_mut(Register::X9) = 0xF0;
    run(i_type(0x7C0, 9, 0b001, 9, 0b1110011), &mut regfile, &mut pc, &mut memory);
    assert_eq!(regfile.xregs.get(Register::X9), 0b11111);
    assert_eq!(regfile.csrs.get(0x7C0), 0xF0);
    assert_eq!(pc, 28);
}

#[test]
fn rounding_operations_are_handed_out() {
    let mut regfile: RegFile<u32> = RegFile::default();
    let mut memory = [0u8; 0];
    let mut pc = 0u32;
    *regfile.fregs.get_mut(Register::X1) = 1.5f32.to_bits();
    *regfile.fregs.get_mut(Register::X2) = 2.25f32.to_bits();
    *regfile.fregs.get_mut(Register::X3) = 8.0f32.to_bits();
    let outcome = step(r_type(0, 2, 1, 0b111, 4, 0b1010011), &mut regfile, &mut pc, &mut memory);
    let expected = FloatRequest {
        op: FloatOp::Fadd,
        a: 1.5f32.to_bits(),
        b: 2.25f32.to_bits(),
        c: 0,
        rd: Register::X4,
    };
    assert_eq!(outcome, Ok(Outcome::Pending(expected)));
    // The program counter has advanced; the register waits for the result.
    assert_eq!(pc, 4);
    assert_eq!(regfile.fregs.get(Register::X4), 0);
    expected.complete(host(expected), &mut regfile.fregs);
    assert_eq!(regfile.fregs.get(Register::X4), 3.75f32.to_bits());
    // The square root has one operand.
    let outcome = step(r_type(0b0101100, 0, 3, 0, 5, 0b1010011), &mut regfile, &mut pc, &mut memory);
    let root = FloatRequest { op: FloatOp::Fsqrt, a: 8.0f32.to_bits(), b: 0, c: 0, rd: Register::X5 };
    assert_eq!(outcome, Ok(Outcome::Pending(root)));
    // The fused family has three.
    let word = (3 << 27) | r_type(0, 2, 1, 0, 6, 0b1001011);
    let outcome = step(word, &mut regfile, &mut pc, &mut memory);
    let fused = FloatRequest {
        op: FloatOp::Fnmsub,
        a: 1.5f32.to_bits(),
        b: 2.25f32.to_bits(),
        c: 8.0f32.to_bits(),
        rd: Register::X6,
    };
    assert_eq!(outcome, Ok(Outcome::Pending(fused)));
    // A conversion takes its operand from the integer registers.
    *regfile.xregs.get_mut(Register::X1) = -7i32 as u32;
    let outcome = step(r_type(0b1101000, 1, 1, 0, 7, 0b1010011), &mut regfile, &mut pc, &mut memory);
    let unsigned = FloatRequest { op: FloatOp::Fcvtswu, a: -7i32 as u32, b: 0, c: 0, rd: Register::X7 };
    assert_eq!(outcome, Ok(Outcome::Pending(unsigned)));
    assert_eq!(pc, 16);
}

#[test]
fn floating_point_failures() {
    let mut regfile: RegFile<u32> = RegFile::default();
    let mut memory = [0u8; 8];
    // Destination 0.
    fails(r_type(0, 2, 1, 0, 0, 0b1010011), &mut regfile, 0, &mut memory);
    fails(r_type(0b0010000, 2, 1, 0, 0, 0b1010011), &mut regfile, 0, &mut memory);
    fails(r_type(0, 2, 1, 0, 0, 0b1000011), &mut regfile, 0, &mut memory);
    fails(r_type(0, 2, 1, 0, 0, 0b1001111), &mut regfile, 0, &mut memory);
    fails(i_type(0, 0, 0b010, 0, 0b0000111), &mut regfile, 0, &mut memory);
    // Keys that select nothing.
    fails(r_type(0b0010000, 2, 1, 0b011, 3, 0b1010011), &mut regfile, 0, &mut memory);
    fails(r_type(0b1100000, 2, 1, 0, 3, 0b1010011), &mut regfile, 0, &mut memory);
    fails(r_type(0b0000001, 2, 1, 0, 3, 0b1010011), &mut regfile, 0, &mut memory);
    fails(i_type(0, 0, 0b011, 3, 0b0000111), &mut regfile, 0, &mut memory);
    fails(s_type(0, 1, 0, 0b011, 0b0100111), &mut regfile, 0, &mut memory);
    // Memory out of range.
    fails(i_type(6, 0, 0b010, 3, 0b0000111), &mut regfile, 0, &mut memory);
    fails(s_type(6, 1, 0, 0b010, 0b0100111), &mut regfile, 0, &mut memory);
}

#[test]
fn floating_point_in_64_bit_mode() {
    let mut regfile: RegFile<u64> = RegFile::default();
    let mut memory = [0u8; 16];
    let mut pc = 0u64;
    *regfile.fregs.get_mut(Register::X1) = 0xFFFF_FFFF_0000_0000 | (-2.0f32).to_bits() as u64;
    *regfile.fregs.get_mut(Register::X2) = 3.0f32.to_bits() as u64;
    // The operands are the low 32 bits; results are zero-extended.
    run(r_type(0, 2, 1, 0, 3, 0b1010011), &mut regfile, &mut pc, &mut memory);
    assert_eq!(regfile.fregs.get(Register::X3), 1.0f32.to_bits() as u64);
    run(r_type(0b1110000, 0, 1, 0, 4, 0b1010011), &mut regfile, &mut pc, &mut memory);
    assert_eq!(regfile.xregs.get(Register::X4), (-2.0f32).to_bits() as u64);
    run(r_type(0b1100000, 0, 1, 0, 5, 0b1010011), &mut regfile, &mut pc, &mut memory);
    assert_eq!(regfile.xregs.get(Register::X5), (-2i32) as u32 as u64);
    run(s_type(4, 1, 0, 0b010, 0b0100111), &mut regfile, &mut pc, &mut memory);
    assert_eq!(&memory[4..8], &(-2.0f32).to_le_bytes());
    assert_eq!(&memory[8..12], &[0, 0, 0, 0]);
    run(i_type(4, 0, 0b010, 6, 0b0000111), &mut regfile, &mut pc, &mut memory);
    assert_eq!(regfile.fregs.get(Register::X6), (-2.0f32).to_bits() as u64);
    assert_eq!(pc, 20);
}

#[test]
fn fetch_reads_little_endian_words() {
    let memory = [0x13u8, 0x05, 0xA0, 0x02, 0xFF];
    assert_eq!(fetch(&0u32, &memory), Ok(0x02A0_0513));
    assert_eq!(fetch(&1u64, &memory), Ok(0xFF02_A005));
    assert_eq!(fetch(&2u32, &memory), Err(Error::InvalidOpCode));
    assert_eq!(fetch(&u32::MAX, &memory), Err(Error::InvalidOpCode));
    assert_eq!(fetch(&u64::MAX, &memory), Err(Error::InvalidOpCode));
}

#[test]
fn a_program_runs_until_it_fails() {
    // addi x10, x0, 42; addi x11, x10, -2; sw x11, 32(x0); lw x12, 32(x0);
    // beq x11, x12, +8; (skipped) addi x13, x0, 1; add x14, x10, x12; fence
    let program: [u32; 8] = [
        i_type(42, 0, 0, 10, 0b0010011),
        i_type(0xFFE, 10, 0, 11, 0b0010011),
        s_type(32, 11, 0, 0b010, 0b0100011),
        i_type(32, 0, 0b010, 12, 0b0000011),
        b_type(8, 12, 11, 0b000),
        i_type(1, 0, 0, 13, 0b0010011),
        r_type(0, 12, 10, 0, 14, 0b0110011),
        0x0FF0_000F,
    ];
    let mut memory = [0u8; 64];
    for (index, word) in program.iter().enumerate() {
        memory[4 * index..4 * index + 4].copy_from_slice(&word.to_le_bytes());
    }
    let mut regfile: RegFile<u32> = RegFile::new(Registers::with_sp(256), Registers::default(), Default::default());
    let mut pc = 0u32;
    let mut retired = 0;
    let halted = loop {
        match fetch_and_step(&mut regfile, &mut pc, &mut memory) {
            Ok(Outcome::Retired) => retired += 1,
            Ok(Outcome::Pending(request)) => request.complete(host(request), &mut regfile.fregs),
            Err(e) => break e,
        }
    };
    assert_eq!(halted, Error::InvalidOpCode);
    assert_eq!(retired, 6);
    assert_eq!(pc, 28);
    assert_eq!(regfile.xregs.get(Register::X2), 256);
    assert_eq!(regfile.xregs.get(Register::X10), 42);
    assert_eq!(regfile.xregs.get(Register::X11), 40);
    assert_eq!(regfile.xregs.get(Register::X12), 40);
    assert_eq!(regfile.xregs.get(Register::X13), 0);
    assert_eq!(regfile.xregs.get(Register::X14), 82);
    assert_eq!(&memory[32..36], &[40, 0, 0, 0]);
    // A program counter outside the memory fails the fetch.
    let mut pc = 62u32;
    assert_eq!(fetch_and_step(&mut regfile, &mut pc, &mut memory), Err(Error::InvalidOpCode));
    assert_eq!(pc, 62);
}
