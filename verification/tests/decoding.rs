use riscv_engine::bit_extract;
use riscv_engine::decode::{Shift, B, I, J, R, R4, S, U, U12, U13, U2, U21, U3, U5, U6, U7};
use riscv_engine::error::Error;
use riscv_engine::mem::{memr, memr16, memr32, memr8, memw, read, I16, I32, I64, U16, U32, U64};
use riscv_engine::registers::{
    CsrRegisters, ProgramCounter, RegFile, Register, Registers, Zero, ZeroOrRegister,
};

#[test]
fn bit_fields() {
    assert_eq!(bit_extract(0xDEAD_BEEF, 0, 31), 0xDEAD_BEEF);
    assert_eq!(bit_extract(0xDEAD_BEEF, 0, 0), 1);
    assert_eq!(bit_extract(0xDEAD_BEEF, 31, 31), 1);
    assert_eq!(bit_extract(0xDEAD_BEEF, 4, 7), 0xE);
    assert_eq!(bit_extract(0xDEAD_BEEF, 16, 31), 0xDEAD);
    assert_eq!(bit_extract(0xDEAD_BEEF, 1, 31), 0xDEAD_BEEF >> 1);
    assert_eq!(bit_extract(0x0000_1637, 0, 6), 0b0110111);
    assert_eq!(bit_extract(0x0000_1637, 7, 11), 12);
    assert_eq!(bit_extract(0, 5, 20), 0);
}

#[test]
fn bounded_fields_check_their_range() {
    assert!(U2::new(3).is_some() && U2::new(4).is_none());
    assert!(U3::new(7).is_some() && U3::new(8).is_none());
    assert!(U5::new(31).is_some() && U5::new(32).is_none());
    assert!(U6::new(63).is_some() && U6::new(64).is_none());
    assert!(U7::new(127).is_some() && U7::new(128).is_none());
    assert!(U12::new(4095).is_some() && U12::new(4096).is_none());
    assert!(U13::new(8191).is_some() && U13::new(8192).is_none());
    assert!(U21::new(0x1F_FFFF).is_some() && U21::new(0x20_0000).is_none());
    assert_eq!(U5::new(17).unwrap().as_u8(), 17);
    assert_eq!(U5::new(17).unwrap().as_u64(), 17);
    assert_eq!(U12::new(0xABC).unwrap().as_u16(), 0xABC);
    assert_eq!(U21::new(0x12_3456).unwrap().as_u32(), 0x12_3456);
}

#[test]
fn sign_extension_of_immediates() {
    assert_eq!(U12::new(0).unwrap().sign_extend(), 0);
    assert_eq!(U12::new(0x7FF).unwrap().sign_extend(), 2047);
    assert_eq!(U12::new(0x800).unwrap().sign_extend(), -2048);
    assert_eq!(U12::new(0xFFF).unwrap().sign_extend(), -1);
    assert_eq!(U13::new(0xFFF).unwrap().sign_extend(), 4095);
    assert_eq!(U13::new(0x1000).unwrap().sign_extend(), -4096);
    assert_eq!(U13::new(0x1FFE).unwrap().sign_extend(), -2);
    assert_eq!(U21::new(0xF_FFFF).unwrap().sign_extend(), 0xF_FFFF);
    assert_eq!(U21::new(0x10_0000).unwrap().sign_extend(), -0x10_0000);
    assert_eq!(U21::new(0x1F_FFFE).unwrap().sign_extend(), -2);
    // Extending at decode time (an arithmetic shift of the word) gives the same.
    for word in [0u32, 0x7FF0_0000, 0x8000_0000, 0xFFF0_0000, 0x1230_0000, 0xABCD_EF12] {
        let decoded = I::from_u32(word);
        assert_eq!(decoded.imm.sign_extend() as i32, (word as i32) >> 20);
    }
}

#[test]
fn register_format_fields() {
    let r = R::from_u32(0x40E6_D633);
    assert_eq!(r.rd.as_u8(), 12);
    assert_eq!(r.rs1.as_u8(), 13);
    assert_eq!(r.rs2.as_u8(), 14);
    assert_eq!(r.funct3.as_u8(), 0b101);
    assert_eq!(r.funct7.as_u8(), 0b0100000);
    assert_eq!(r.id(), 0b0100000_101);
    let all = R::from_u32(0xFFFF_FFFF);
    assert_eq!((all.rd.as_u8(), all.rs1.as_u8(), all.rs2.as_u8()), (31, 31, 31));
    assert_eq!((all.funct3.as_u8(), all.funct7.as_u8()), (7, 127));
    assert_eq!(all.id(), 1023);
}

#[test]
fn floating_point_keys() {
    // Arithmetic ignores the rounding mode and the second source.
    assert_eq!(R::from_u32(0x00E6_F653).fid(), 0);
    assert_eq!(R::from_u32(0x08E6_8653).fid(), 0b0000100);
    assert_eq!(R::from_u32(0x5800_7053).fid(), 0b0101100);
    // Conversions are told apart by the second source field.
    assert_eq!(R::from_u32(0xC000_0053).fid(), 0b1100000_00000);
    assert_eq!(R::from_u32(0xC010_0053).fid(), 0b1100000_00001);
    assert_eq!(R::from_u32(0xD010_0053).fid(), 0b1101000_00001);
    // The others by funct3.
    assert_eq!(R::from_u32(0x2000_2053).fid(), 0b0010000_010);
    assert_eq!(R::from_u32(0xE000_1053).fid(), 0b1110000_001);
    // A funct7 that would collide with arithmetic has the key of nothing.
    assert_eq!(R::from_u32(0x0200_0053).fid(), 0xFFF);
    assert_eq!(R::from_u32(0x0A00_4053).fid(), 0xFFF);
}

#[test]
fn immediate_and_store_format_fields() {
    let i = I::from_u32(0xFFF6_8613);
    assert_eq!((i.rd.as_u8(), i.rs1.as_u8(), i.funct3.as_u8()), (12, 13, 0));
    assert_eq!(i.imm.as_u16(), 0xFFF);
    assert_eq!(i.id(), 0);
    // sw x12, -4(x13): the immediate is split over bits 25 to 31 and 7 to 11.
    let s = S::from_u32(0xFEC6_AE23);
    assert_eq!((s.rs1.as_u8(), s.rs2.as_u8(), s.funct3.as_u8()), (13, 12, 0b010));
    assert_eq!(s.imm.sign_extend(), -4);
    assert_eq!(s.id(), 0b010);
    let s = S::from_u32(0x00C6_A2A3);
    assert_eq!(s.imm.as_u16(), 5);
}

#[test]
fn branch_and_jump_offsets() {
    // beq x12, x13, +4.
    let b = B::from_u32(0x00D6_0263);
    assert_eq!((b.rs1.as_u8(), b.rs2.as_u8(), b.id()), (12, 13, 0));
    assert_eq!(b.imm.sign_extend(), 4);
    // Each piece of the offset on its own.
    assert_eq!(B::from_u32(0x8000_0063).imm.sign_extend(), -4096);
    assert_eq!(B::from_u32(0x0000_00E3).imm.as_u16(), 2048);
    assert_eq!(B::from_u32(0x7E00_0063).imm.as_u16(), 0x7E0);
    assert_eq!(B::from_u32(0x0000_0F63).imm.as_u16(), 0x1E);
    assert_eq!(B::from_u32(0xFFFF_FFFF).imm.sign_extend(), -2);
    assert_eq!(J::from_u32(0x8000_006F).imm.sign_extend(), -0x10_0000);
    assert_eq!(J::from_u32(0x000F_F06F).imm.as_u32(), 0xFF000);
    assert_eq!(J::from_u32(0x0010_006F).imm.as_u32(), 0x800);
    assert_eq!(J::from_u32(0x7FE0_006F).imm.as_u32(), 0x7FE);
    assert_eq!(J::from_u32(0xFFFF_FFFF).imm.sign_extend(), -2);
    assert_eq!(J::from_u32(0x0000_066F).rd.as_u8(), 12);
    // Offsets are even, whatever the word.
    for word in [0u32, 0xFFFF_FFFF, 0x1234_5678, 0x8765_4321, 0xAAAA_AAAA, 0x5555_5555] {
        assert_eq!(B::from_u32(word).imm.as_u16() % 2, 0);
        assert_eq!(J::from_u32(word).imm.as_u32() % 2, 0);
    }
}

#[test]
fn upper_shift_and_fused_format_fields() {
    let u = U::from_u32(0xFFFF_F637);
    assert_eq!(u.rd.as_u8(), 12);
    assert_eq!(u.imm, 0xFFFF_F000);
    assert_eq!(U::from_u32(0x0000_1637).imm, 0x1000);
    let shift = Shift::from_u32(0x4236_D613);
    assert_eq!((shift.rd.as_u8(), shift.rs1.as_u8(), shift.funct3.as_u8()), (12, 13, 0b101));
    assert_eq!(shift.shamt.as_u8(), 0b100011);
    assert_eq!(shift.funct6.as_u8(), 0b010000);
    assert_eq!(shift.id(), 0b0100000_101);
    let fused = R4::from_u32(0x7AE6_F64F);
    assert_eq!((fused.rd.as_u8(), fused.rs1.as_u8(), fused.rs2.as_u8()), (12, 13, 14));
    assert_eq!((fused.rs3.as_u8(), fused.funct2.as_u8(), fused.funct3.as_u8()), (15, 1, 7));
}

#[test]
fn register_selectors() {
    assert_eq!(ZeroOrRegister::from_u5(U5::new(0).unwrap()), ZeroOrRegister::Zero);
    assert_eq!(ZeroOrRegister::from_u5(U5::new(1).unwrap()), ZeroOrRegister::Register(Register::X1));
    assert_eq!(ZeroOrRegister::from_u5(U5::new(12).unwrap()), ZeroOrRegister::Register(Register::X12));
    assert_eq!(ZeroOrRegister::from_u5(U5::new(31).unwrap()), ZeroOrRegister::Register(Register::X31));
    assert_eq!(Register::X1.index(), 1);
    assert_eq!(Register::X17.index(), 17);
    assert_eq!(Register::X31.index(), 31);
    for index in 1..32u8 {
        match ZeroOrRegister::from_u5(U5::new(index).unwrap()) {
            ZeroOrRegister::Register(register) => assert_eq!(register.index(), index as usize),
            ZeroOrRegister::Zero => panic!("register {index} is not the zero register"),
        }
    }
}

#[test]
fn register_files() {
    let mut regs: Registers<u64> = Registers::with_sp(256);
    assert_eq!(regs.get(Register::X2), 256);
    assert_eq!(regs.get(Register::X1), 0);
    assert_eq!(regs.get(Register::X31), 0);
    assert_eq!(ZeroOrRegister::Zero.fetch(&regs), 0);
    assert!(ZeroOrRegister::Zero.fetch_mut(&mut regs).is_none());
    *ZeroOrRegister::Register(Register::X31).fetch_mut(&mut regs).unwrap() = 7;
    *regs.get_mut(Register::X1) = 9;
    assert_eq!(Register::X31.fetch(&regs), 7);
    assert_eq!(regs.get(Register::X1), 9);
    assert_eq!(regs.get(Register::X2), 256);
    let fresh: Registers<u32> = Registers::default();
    assert_eq!(fresh.get(Register::X2), 0);
    let csrs: CsrRegisters<u32> = CsrRegisters::new();
    assert_eq!(csrs.get(0), 0);
    assert_eq!(csrs.get(4095), 0);
    let file: RegFile<u32> = RegFile::new(Registers::with_sp(64), Registers::new(), CsrRegisters::new());
    assert_eq!(file.xregs.get(Register::X2), 64);
    assert_eq!(file.fregs.get(Register::X2), 0);
    assert_eq!(<u32 as Zero>::zero(), 0);
    assert_eq!(<u64 as Zero>::zero(), 0);
}

#[test]
fn program_counter() {
    let mut pc = 0u32;
    pc.increment();
    assert_eq!(pc, 4);
    let mut pc = u32::MAX - 1;
    pc.increment();
    assert_eq!(pc, 2);
    let mut pc = u64::MAX;
    pc.increment();
    assert_eq!(pc, 3);
    assert_eq!(0x1234u32.address(), Some(0x1234));
    assert_eq!(0x1234u64.address(), Some(0x1234));
}

#[test]
fn typed_reads_are_little_endian() {
    let memory = [0x01u8, 0x82, 0x03, 0x84, 0x05, 0x06, 0x07, 0x88, 0xFF];
    assert_eq!(read::<u8>(&memory, 1).unwrap(), 0x82);
    assert_eq!(read::<i8>(&memory, 1).unwrap(), -126);
    assert_eq!(read::<i8>(&memory, 0).unwrap(), 1);
    assert_eq!(read::<U16>(&memory, 0).unwrap().as_u16(), 0x8201);
    assert_eq!(read::<I16>(&memory, 0).unwrap().as_i16(), 0x8201u16 as i16);
    assert_eq!(read::<U32>(&memory, 0).unwrap().as_u32(), 0x8403_8201);
    assert_eq!(read::<I32>(&memory, 0).unwrap().as_i32(), 0x8403_8201u32 as i32);
    assert_eq!(read::<U32>(&memory, 1).unwrap().as_u32(), 0x0584_0382);
    assert_eq!(read::<U64>(&memory, 0).unwrap().as_u64(), 0x8807_0605_8403_8201);
    assert_eq!(read::<I64>(&memory, 1).unwrap().as_i64(), 0xFF88_0706_0584_0382u64 as i64);
    assert_eq!(read::<I16>(&memory, 4).unwrap().as_i16(), 0x0605);
}

#[test]
fn reads_out_of_range_fail() {
    let memory = [0u8; 8];
    assert!(matches!(read::<u8>(&memory, 8), Err(Error::InvalidOpCode)));
    assert!(read::<u8>(&memory, 7).is_ok());
    assert!(matches!(read::<U16>(&memory, 7), Err(Error::InvalidOpCode)));
    assert!(read::<U16>(&memory, 6).is_ok());
    assert!(matches!(read::<U32>(&memory, 5), Err(Error::InvalidOpCode)));
    assert!(read::<U32>(&memory, 4).is_ok());
    assert!(matches!(read::<U64>(&memory, 1), Err(Error::InvalidOpCode)));
    assert!(read::<U64>(&memory, 0).is_ok());
    assert!(matches!(read::<U64>(&memory, usize::MAX), Err(Error::InvalidOpCode)));
    assert!(matches!(read::<u8>(&[], 0), Err(Error::InvalidOpCode)));
    assert_eq!(memr8(&memory, 8), Err(Error::InvalidOpCode));
    assert_eq!(memr16(&memory, 7), Err(Error::InvalidOpCode));
    assert_eq!(memr32(&memory, 5), Err(Error::InvalidOpCode));
    assert_eq!(memr::<8>(&memory, 1), Err(Error::InvalidOpCode));
    assert_eq!(memr::<0>(&memory, 8), Ok([]));
    assert_eq!(memr::<0>(&memory, 9), Err(Error::InvalidOpCode));
}

#[test]
fn typed_writes_are_little_endian() {
    let mut memory = [0xEEu8; 12];
    riscv_engine::mem::write(&0x12u8, &mut memory, 0).unwrap();
    riscv_engine::mem::write(&-2i8, &mut memory, 1).unwrap();
    riscv_engine::mem::write(&U16::new(0xA1B2), &mut memory, 2).unwrap();
    riscv_engine::mem::write(&I16::new(-2), &mut memory, 4).unwrap();
    riscv_engine::mem::write(&U32::new(0xC1D2_E3F4), &mut memory, 6).unwrap();
    assert_eq!(memory, [0x12, 0xFE, 0xB2, 0xA1, 0xFE, 0xFF, 0xF4, 0xE3, 0xD2, 0xC1, 0xEE, 0xEE]);
    riscv_engine::mem::write(&I32::new(-2), &mut memory, 8).unwrap();
    assert_eq!(&memory[8..], &[0xFE, 0xFF, 0xFF, 0xFF]);
    riscv_engine::mem::write(&U64::new(0x0102_0304_0506_0708), &mut memory, 4).unwrap();
    assert_eq!(&memory[4..], &[8, 7, 6, 5, 4, 3, 2, 1]);
    riscv_engine::mem::write(&I64::new(i64::MIN), &mut memory, 0).unwrap();
    assert_eq!(&memory[..8], &[0, 0, 0, 0, 0, 0, 0, 0x80]);
    assert_eq!(read::<I64>(&memory, 0).unwrap().as_i64(), i64::MIN);
}

#[test]
fn writes_out_of_range_fail_and_change_nothing() {
    let mut memory = [0x55u8; 8];
    assert_eq!(riscv_engine::mem::write(&U32::new(1), &mut memory, 5), Err(Error::InvalidOpCode));
    assert_eq!(riscv_engine::mem::write(&U64::new(1), &mut memory, 1), Err(Error::InvalidOpCode));
    assert_eq!(riscv_engine::mem::write(&0u8, &mut memory, 8), Err(Error::InvalidOpCode));
    assert_eq!(riscv_engine::mem::write(&U16::new(1), &mut memory, usize::MAX), Err(Error::InvalidOpCode));
    assert_eq!(memw(&[1, 2, 3], &mut memory, 6), Err(Error::InvalidOpCode));
    assert_eq!(memw(&[1], &mut memory, 9), Err(Error::InvalidOpCode));
    assert_eq!(memory, [0x55; 8]);
    assert_eq!(memw(&[1, 2, 3], &mut memory, 5), Ok(()));
    assert_eq!(memw(&[], &mut memory, 8), Ok(()));
    assert_eq!(memory, [0x55, 0x55, 0x55, 0x55, 0x55, 1, 2, 3]);
    assert_eq!(memr::<3>(&memory, 5), Ok([1, 2, 3]));
}

#[test]
fn values_round_trip_through_memory() {
    let mut memory = [0u8; 16];
    for value in [0u64, 1, 0x80, 0xFFFF, 0x8000_0000, 0xDEAD_BEEF_0BAD_F00D, u64::MAX] {
        for addr in [0usize, 1, 3, 8] {
            riscv_engine::mem::write(&U64::new(value), &mut memory, addr).unwrap();
            assert_eq!(read::<U64>(&memory, addr).unwrap().as_u64(), value);
            riscv_engine::mem::write(&I64::new(value as i64), &mut memory, addr).unwrap();
            assert_eq!(read::<I64>(&memory, addr).unwrap().as_i64(), value as i64);
            riscv_engine::mem::write(&U32::new(value as u32), &mut memory, addr).unwrap();
            assert_eq!(read::<U32>(&memory, addr).unwrap().as_u32(), value as u32);
            riscv_engine::mem::write(&I32::new(value as i32), &mut memory, addr).unwrap();
            assert_eq!(read::<I32>(&memory, addr).unwrap().as_i32(), value as i32);
            riscv_engine::mem::write(&U16::new(value as u16), &mut memory, addr).unwrap();
            assert_eq!(read::<U16>(&memory, addr).unwrap().as_u16(), value as u16);
            riscv_engine::mem::write(&I16::new(value as i16), &mut memory, addr).unwrap();
            assert_eq!(read::<I16>(&memory, addr).unwrap().as_i16(), value as i16);
            riscv_engine::mem::write(&(value as u8), &mut memory, addr).unwrap();
            assert_eq!(read::<u8>(&memory, addr).unwrap(), value as u8);
            riscv_engine::mem::write(&(value as i8), &mut memory, addr).unwrap();
            assert_eq!(read::<i8>(&memory, addr).unwrap(), value as i8);
        }
    }
}
