use vstd::prelude::*;

verus! {

// Register-register arithmetic: `funct7` above `funct3`.
pub const ADD: u16 = 0b0000000_000;
pub const SUB: u16 = 0b0100000_000;
pub const SLL: u16 = 0b0000000_001;
pub const SLT: u16 = 0b0000000_010;
pub const SLTU: u16 = 0b0000000_011;
pub const XOR: u16 = 0b0000000_100;
pub const SRL: u16 = 0b0000000_101;
pub const SRA: u16 = 0b0100000_101;
pub const OR: u16 = 0b0000000_110;
pub const AND: u16 = 0b0000000_111;
pub const ADDW: u16 = 0b0000000_000;
pub const SUBW: u16 = 0b0100000_000;
pub const SLLW: u16 = 0b0000000_001;
pub const SRLW: u16 = 0b0000000_101;
pub const SRAW: u16 = 0b0100000_101;

// Arithmetic with an immediate: `funct3`.
pub const ADDI: u8 = 0b000;
pub const SLTI: u8 = 0b010;
pub const SLTIU: u8 = 0b011;
pub const XORI: u8 = 0b100;
pub const ORI: u8 = 0b110;
pub const ANDI: u8 = 0b111;
pub const ADDIW: u8 = 0b000;

// Shifts by an immediate: the shift format's key.
pub const SLLI: u16 = 0b0000000_001;
pub const SRLI: u16 = 0b0000000_101;
pub const SRAI: u16 = 0b0100000_101;
pub const SLLIW: u16 = 0b0000000_001;
pub const SRLIW: u16 = 0b0000000_101;
pub const SRAIW: u16 = 0b0100000_101;

// Loads and stores: `funct3`.
pub const LB: u8 = 0b000;
pub const LBU: u8 = 0b100;
pub const LH: u8 = 0b001;
pub const LHU: u8 = 0b101;
pub const LW: u8 = 0b010;
pub const LWU: u8 = 0b110;
pub const LD: u8 = 0b011;
pub const SB: u8 = 0b000;
pub const SH: u8 = 0b001;
pub const SW: u8 = 0b010;
pub const SD: u8 = 0b011;

// Branches: `funct3`.
pub const BEQ: u8 = 0b000;
pub const BNE: u8 = 0b001;
pub const BLT: u8 = 0b100;
pub const BGE: u8 = 0b101;
pub const BLTU: u8 = 0b110;
pub const BGEU: u8 = 0b111;

// Multiplication and division.
pub const MUL: u16 = 0b0000001_000;
pub const MULH: u16 = 0b0000001_001;
pub const MULHSU: u16 = 0b0000001_010;
pub const MULHU: u16 = 0b0000001_011;
pub const DIV: u16 = 0b0000001_100;
pub const DIVU: u16 = 0b0000001_101;
pub const REM: u16 = 0b0000001_110;
pub const REMU: u16 = 0b0000001_111;

// Control and status registers: `funct3`.
pub const CSRRW: u8 = 0b001;
pub const CSRRS: u8 = 0b010;
pub const CSRRC: u8 = 0b011;
pub const CSRRWI: u8 = 0b101;
pub const CSRRSI: u8 = 0b110;
pub const CSRRCI: u8 = 0b111;

// Single-precision loads and stores: `funct3`.
pub const FLW: u8 = 0b010;
pub const FSW: u8 = 0b010;

// Single-precision operations: the register format's floating-point key.
pub const FADD_S: u16 = 0b00000_0000000;
pub const FSUB_S: u16 = 0b00000_0000100;
pub const FMUL_S: u16 = 0b00000_0001000;
pub const FDIV_S: u16 = 0b00000_0001100;
pub const FSQRT_S: u16 = 0b00000_0101100;
pub const FSGNJ_S: u16 = 0b00_0010000_000;
pub const FSGNJN_S: u16 = 0b00_0010000_001;
pub const FSGNJNX_S: u16 = 0b00_0010000_010;
pub const FMIN_S: u16 = 0b00_0010100_000;
pub const FMAX_S: u16 = 0b00_0010100_001;
pub const FCVT_W_S: u16 = 0b1100000_00000;
pub const FCVT_WU_S: u16 = 0b1100000_00001;
pub const FMV_X_W: u16 = 0b00_1110000_000;
pub const FEQ_S: u16 = 0b00_1010000_010;
pub const FLT_S: u16 = 0b00_1010000_001;
pub const FLE_S: u16 = 0b00_1010000_000;
pub const FCLASS_S: u16 = 0b00_1110000_001;
pub const FCVT_S_W: u16 = 0b1101000_00000;
pub const FCVT_S_WU: u16 = 0b1101000_00001;
pub const FMV_W_X: u16 = 0b00_1111000_000;

} // verus!
