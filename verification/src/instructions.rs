use crate::decode::{Shift, B, I, J, R, R4, S, U};
use crate::error::Error;
use crate::instruction_ids::{
    ADD, ADDI, ADDIW, ADDW, AND, ANDI, BEQ, BGE, BGEU, BLT, BLTU, BNE, CSRRC, CSRRCI, CSRRS,
    CSRRSI, CSRRW, CSRRWI, DIV, DIVU, FADD_S, FCLASS_S, FCVT_S_W, FCVT_S_WU, FCVT_WU_S,
    FCVT_W_S, FDIV_S, FEQ_S, FLE_S, FLT_S, FLW, FMAX_S, FMIN_S, FMUL_S, FMV_W_X, FMV_X_W,
    FSGNJN_S, FSGNJNX_S, FSGNJ_S, FSQRT_S, FSUB_S, FSW, LB, LBU, LD, LH, LHU, LW, LWU, MUL,
    MULH, MULHSU, MULHU, OR, ORI, REM, REMU, SB, SD, SH, SLL, SLLI, SLLIW, SLLW, SLT, SLTI,
    SLTIU, SLTU, SRA, SRAI, SRAIW, SRAW, SRL, SRLI, SRLIW, SRLW, SUB, SUBW, SW, XOR, XORI,
};
use crate::num::{wrap32, wrap64, As, Bitcast, UnsignedWrapping, Wrapping};
use crate::ops::branch::{BaseBranch, Beq, Bge, Bgeu, Blt, Bltu, Bne};
use crate::ops::csr::BaseCsr;
use crate::ops::float::{
    Fclass, Fcvtws, Fcvtwus, Feq, Fle, FloatOp, FloatRequest, Flt, Fmax, Fmin, Fmvwx, Fmvxw,
    Fsgnj, Fsgnjn, Fsgnjx,
};
use crate::ops::math::{
    sext32, Addi, Addiw, Addw, BaseMath, BaseMathW, Slliw, Sllw, Sraiw, Sraw, Srliw, Srlw, Subw,
};
use crate::ops::mem::{store_meets, Flw, Fsw, Lb, Lbu, Ld, Lh, Lhu, Lw, Lwu, Sb, Sd, Sh, Sw};
use crate::registers::{csr_read_only, CsrRegisters, Register, Registers, Zero, ZeroOrRegister};
use vstd::prelude::*;

verus! {

/// An operation returned `out` and left a register file that reads as `after`,
/// as `expected` says: on success the file is the expected one, on failure it
/// is as it was before.
pub open spec fn file_meets<T>(
    out: Result<(), Error>,
    before: Seq<T>,
    after: Seq<T>,
    expected: Result<Seq<T>, Error>,
) -> bool {
    match expected {
        Ok(file) => out == Ok::<(), Error>(()) && after == file,
        Err(e) => out == Err::<(), Error>(e) && after == before,
    }
}

/// The register file after `value` has been written to the register `rd`,
/// or the error where `rd` is the zero register.
pub open spec fn written<T>(file: Seq<T>, rd: nat, value: T) -> Result<Seq<T>, Error> {
    if rd == 0 {
        Err(Error::InvalidOpCode)
    } else {
        Ok(file.update(rd as int, value))
    }
}

/// The value of a register-register operation with the key `id`, if there is
/// such an operation.
pub open spec fn math_value<T: BaseMath>(id: nat, a: T, b: T) -> Option<T> {
    if id == ADD {
        Some(a.add_spec(b))
    } else if id == SUB {
        Some(a.sub_spec(b))
    } else if id == SLL {
        Some(a.sll_spec(b))
    } else if id == SLT {
        Some(a.slt_spec(b))
    } else if id == SLTU {
        Some(a.sltu_spec(b))
    } else if id == XOR {
        Some(a.xor_spec(b))
    } else if id == SRL {
        Some(a.srl_spec(b))
    } else if id == SRA {
        Some(a.sra_spec(b))
    } else if id == OR {
        Some(a.or_spec(b))
    } else if id == AND {
        Some(a.and_spec(b))
    } else if id == MUL {
        Some(a.mul_spec(b))
    } else if id == MULH {
        Some(a.mulh_spec(b))
    } else if id == MULHSU {
        Some(a.mulhsu_spec(b))
    } else if id == MULHU {
        Some(a.mulhu_spec(b))
    } else if id == DIV {
        Some(a.div_spec(b))
    } else if id == DIVU {
        Some(a.divu_spec(b))
    } else if id == REM {
        Some(a.rem_spec(b))
    } else if id == REMU {
        Some(a.remu_spec(b))
    } else {
        None
    }
}

/// Register-register arithmetic.
///
/// The destination receives the value of the operation on the two sources.
/// The instruction fails where its key selects no operation or its
/// destination is the zero register.
pub trait Math: Zero + Copy {
    spec fn math_spec(instruction: R, regs: Registers<Self>) -> Result<Seq<Self>, Error>;

    fn math(instruction: R, regs: &mut Registers<Self>) -> (out: Result<(), Error>)
        ensures
            file_meets(out, old(regs)@, final(regs)@, Self::math_spec(instruction, *old(regs))),
    ;
}

impl<T: Copy + BaseMath + Zero> Math for T {
    open spec fn math_spec(instruction: R, regs: Registers<Self>) -> Result<Seq<Self>, Error> {
        match math_value::<T>(
            instruction.id_spec(),
            regs@[instruction.rs1@ as int],
            regs@[instruction.rs2@ as int],
        ) {
            Some(value) => written(regs@, instruction.rd@, value),
            None => Err(Error::InvalidOpCode),
        }
    }

    fn math(instruction: R, regs: &mut Registers<Self>) -> (out: Result<(), Error>)
        ensures
            file_meets(out, old(regs)@, final(regs)@, Self::math_spec(instruction, *old(regs))),
    {
        let id: u16 = instruction.id();
        let src1: T = ZeroOrRegister::from_u5(instruction.rs1).fetch(regs);
        let src2: T = ZeroOrRegister::from_u5(instruction.rs2).fetch(regs);
        let value: T = if id == ADD {
            src1.add(src2)
        } else if id == SUB {
            src1.sub(src2)
        } else if id == SLL {
            src1.sll(src2)
        } else if id == SLT {
            src1.slt(src2)
        } else if id == SLTU {
            src1.sltu(src2)
        } else if id == XOR {
            src1.xor(src2)
        } else if id == SRL {
            src1.srl(src2)
        } else if id == SRA {
            src1.sra(src2)
        } else if id == OR {
            src1.or(src2)
        } else if id == AND {
            src1.and(src2)
        } else if id == MUL {
            src1.mul(src2)
        } else if id == MULH {
            src1.mulh(src2)
        } else if id == MULHSU {
            src1.mulhsu(src2)
        } else if id == MULHU {
            src1.mulhu(src2)
        } else if id == DIV {
            src1.div(src2)
        } else if id == DIVU {
            src1.divu(src2)
        } else if id == REM {
            src1.rem(src2)
        } else if id == REMU {
            src1.remu(src2)
        } else {
            return Err(Error::InvalidOpCode);
        };
        match ZeroOrRegister::from_u5(instruction.rd) {
            ZeroOrRegister::Zero => Err(Error::InvalidOpCode),
            ZeroOrRegister::Register(reg) => {
                *regs.get_mut(reg) = value;
                Ok(())
            },
        }
    }
}

/// The value of an operation on a register and an immediate with the key
/// `id`, if there is such an operation.
pub open spec fn mathi_value<T: BaseMath>(id: nat, a: T, imm: crate::decode::U12) -> Option<T> {
    if id == ADDI {
        Some(a.addi_spec(imm))
    } else if id == SLTI {
        Some(a.slti_spec(imm))
    } else if id == SLTIU {
        Some(a.sltiu_spec(imm))
    } else if id == XORI {
        Some(a.xori_spec(imm))
    } else if id == ORI {
        Some(a.ori_spec(imm))
    } else if id == ANDI {
        Some(a.andi_spec(imm))
    } else {
        None
    }
}

/// Arithmetic on a register and an immediate.
///
/// The destination receives the value of the operation on the source and the
/// immediate. The instruction fails where its key selects no operation or its
/// destination is the zero register.
pub trait MathI: Zero + Copy {
    spec fn mathi_spec(instruction: I, regs: Registers<Self>) -> Result<Seq<Self>, Error>;

    fn mathi(instruction: I, regs: &mut Registers<Self>) -> (out: Result<(), Error>)
        ensures
            file_meets(out, old(regs)@, final(regs)@, Self::mathi_spec(instruction, *old(regs))),
    ;
}

impl<T: Copy + BaseMath + Zero> MathI for T {
    open spec fn mathi_spec(instruction: I, regs: Registers<Self>) -> Result<Seq<Self>, Error> {
        match mathi_value::<T>(
            instruction.id_spec(),
            regs@[instruction.rs1@ as int],
            instruction.imm,
        ) {
            Some(value) => written(regs@, instruction.rd@, value),
            None => Err(Error::InvalidOpCode),
        }
    }

    fn mathi(instruction: I, regs: &mut Registers<Self>) -> (out: Result<(), Error>)
        ensures
            file_meets(out, old(regs)@, final(regs)@, Self::mathi_spec(instruction, *old(regs))),
    {
        let id: u8 = instruction.id();
        let src1: T = ZeroOrRegister::from_u5(instruction.rs1).fetch(regs);
        let value: T = if id == ADDI {
            src1.addi(instruction.imm)
        } else if id == SLTI {
            src1.slti(instruction.imm)
        } else if id == SLTIU {
            src1.sltiu(instruction.imm)
        } else if id == XORI {
            src1.xori(instruction.imm)
        } else if id == ORI {
            src1.ori(instruction.imm)
        } else if id == ANDI {
            src1.andi(instruction.imm)
        } else {
            return Err(Error::InvalidOpCode);
        };
        match ZeroOrRegister::from_u5(instruction.rd) {
            ZeroOrRegister::Zero => Err(Error::InvalidOpCode),
            ZeroOrRegister::Register(reg) => {
                *regs.get_mut(reg) = value;
                Ok(())
            },
        }
    }
}

/// The value of a shift by an immediate amount with the key `id`, if there is
/// such a shift.
pub open spec fn shift_value<T: BaseMath>(id: nat, a: T, shamt: crate::decode::U6) -> Option<T> {
    if id == SLLI {
        Some(a.slli_spec(shamt))
    } else if id == SRLI {
        Some(a.srli_spec(shamt))
    } else if id == SRAI {
        Some(a.srai_spec(shamt))
    } else {
        None
    }
}

/// The register file after a shift by an immediate amount in a word of
/// `width` bits. The shift fails where its amount is not below `width`, where
/// the bits above the amount are not those of one of the three shifts, and
/// where its destination is the zero register.
pub open spec fn shifti_result<T: BaseMath + Zero + Copy>(
    instruction: Shift,
    regs: Registers<T>,
    width: nat,
) -> Result<Seq<T>, Error> {
    if instruction.shamt@ >= width {
        Err(Error::InvalidOpCode)
    } else {
        match shift_value::<T>(
            instruction.id_spec(),
            regs@[instruction.rs1@ as int],
            instruction.shamt,
        ) {
            Some(value) => written(regs@, instruction.rd@, value),
            None => Err(Error::InvalidOpCode),
        }
    }
}

/// Performs a shift by an immediate amount in a word of `width` bits.
fn shift_in<T: BaseMath + Zero
    + Copy>(instruction: Shift, regs: &mut Registers<T>, width: u8) -> (out:
    Result<(), Error>)
    ensures
        file_meets(
            out,
            old(regs)@,
            final(regs)@,
            shifti_result::<T>(instruction, *old(regs), width as nat),
        ),
{
    if instruction.shamt.as_u8() >= width {
        return Err(Error::InvalidOpCode);
    }
    let id: u16 = instruction.id();
    let src1: T = ZeroOrRegister::from_u5(instruction.rs1).fetch(regs);
    let value: T = if id == SLLI {
        src1.slli(instruction.shamt)
    } else if id == SRLI {
        src1.srli(instruction.shamt)
    } else if id == SRAI {
        src1.srai(instruction.shamt)
    } else {
        return Err(Error::InvalidOpCode);
    };
    match ZeroOrRegister::from_u5(instruction.rd) {
        ZeroOrRegister::Zero => Err(Error::InvalidOpCode),
        ZeroOrRegister::Register(reg) => {
            *regs.get_mut(reg) = value;
            Ok(())
        },
    }
}

/// Shifts by an immediate amount.
///
/// The amount has five bits in a word of 32 bits and six bits in a word of
/// 64 bits. The instruction fails where the amount is too large for the word,
/// where the bits above the amount are not those of one of the three shifts,
/// and where its destination is the zero register.
pub trait ShiftI: Zero + Copy {
    spec fn shifti_spec(instruction: Shift, regs: Registers<Self>) -> Result<Seq<Self>, Error>;

    fn shifti(instruction: Shift, regs: &mut Registers<Self>) -> (out: Result<(), Error>)
        ensures
            file_meets(out, old(regs)@, final(regs)@, Self::shifti_spec(instruction, *old(regs))),
    ;
}

impl ShiftI for u32 {
    open spec fn shifti_spec(instruction: Shift, regs: Registers<Self>) -> Result<Seq<Self>, Error> {
        shifti_result::<u32>(instruction, regs, 32)
    }

    fn shifti(instruction: Shift, regs: &mut Registers<Self>) -> (out: Result<(), Error>)
        ensures
            file_meets(out, old(regs)@, final(regs)@, Self::shifti_spec(instruction, *old(regs))),
    {
        shift_in::<u32>(instruction, regs, 32)
    }
}

impl ShiftI for u64 {
    open spec fn shifti_spec(instruction: Shift, regs: Registers<Self>) -> Result<Seq<Self>, Error> {
        shifti_result::<u64>(instruction, regs, 64)
    }

    fn shifti(instruction: Shift, regs: &mut Registers<Self>) -> (out: Result<(), Error>)
        ensures
            file_meets(out, old(regs)@, final(regs)@, Self::shifti_spec(instruction, *old(regs))),
    {
        shift_in::<u64>(instruction, regs, 64)
    }
}

/// The value of an operation on the low 32 bits of two registers with the key
/// `id`, if there is such an operation.
pub open spec fn mathw_value<T: BaseMathW>(id: nat, a: T, b: T) -> Option<T> {
    if id == ADDW {
        Some(a.addw_spec(b))
    } else if id == SUBW {
        Some(a.subw_spec(b))
    } else if id == SLLW {
        Some(a.sllw_spec(b))
    } else if id == SRLW {
        Some(a.srlw_spec(b))
    } else if id == SRAW {
        Some(a.sraw_spec(b))
    } else {
        None
    }
}

/// Register-register arithmetic on the low 32 bits of a word of 64 bits.
///
/// The instruction fails where its key selects no operation or its
/// destination is the zero register.
pub trait MathW: Zero + Copy {
    spec fn mathw_spec(instruction: R, regs: Registers<Self>) -> Result<Seq<Self>, Error>;

    fn mathw(instruction: R, regs: &mut Registers<Self>) -> (out: Result<(), Error>)
        ensures
            file_meets(out, old(regs)@, final(regs)@, Self::mathw_spec(instruction, *old(regs))),
    ;
}

impl MathW for u64 {
    open spec fn mathw_spec(instruction: R, regs: Registers<Self>) -> Result<Seq<Self>, Error> {
        match mathw_value::<u64>(
            instruction.id_spec(),
            regs@[instruction.rs1@ as int],
            regs@[instruction.rs2@ as int],
        ) {
            Some(value) => written(regs@, instruction.rd@, value),
            None => Err(Error::InvalidOpCode),
        }
    }

    fn mathw(instruction: R, regs: &mut Registers<Self>) -> (out: Result<(), Error>)
        ensures
            file_meets(out, old(regs)@, final(regs)@, Self::mathw_spec(instruction, *old(regs))),
    {
        let id: u16 = instruction.id();
        let src1: u64 = ZeroOrRegister::from_u5(instruction.rs1).fetch(regs);
        let src2: u64 = ZeroOrRegister::from_u5(instruction.rs2).fetch(regs);
        let value: u64 = if id == ADDW {
            src1.addw(src2)
        } else if id == SUBW {
            src1.subw(src2)
        } else if id == SLLW {
            src1.sllw(src2)
        } else if id == SRLW {
            src1.srlw(src2)
        } else if id == SRAW {
            src1.sraw(src2)
        } else {
            return Err(Error::InvalidOpCode);
        };
        match ZeroOrRegister::from_u5(instruction.rd) {
            ZeroOrRegister::Zero => Err(Error::InvalidOpCode),
            ZeroOrRegister::Register(reg) => {
                *regs.get_mut(reg) = value;
                Ok(())
            },
        }
    }
}

/// Arithmetic on the low 32 bits of a register and an immediate, in a word of
/// 64 bits: the one operation is the sum.
///
/// The instruction fails where its key is not that of the sum or its
/// destination is the zero register.
pub trait MathIW: Zero + Copy {
    spec fn mathiw_spec(instruction: I, regs: Registers<Self>) -> Result<Seq<Self>, Error>;

    fn mathiw(instruction: I, regs: &mut Registers<Self>) -> (out: Result<(), Error>)
        ensures
            file_meets(out, old(regs)@, final(regs)@, Self::mathiw_spec(instruction, *old(regs))),
    ;
}

impl MathIW for u64 {
    open spec fn mathiw_spec(instruction: I, regs: Registers<Self>) -> Result<Seq<Self>, Error> {
        if instruction.id_spec() == ADDIW {
            written(
                regs@,
                instruction.rd@,
                regs@[instruction.rs1@ as int].addiw_spec(instruction.imm),
            )
        } else {
            Err(Error::InvalidOpCode)
        }
    }

    fn mathiw(instruction: I, regs: &mut Registers<Self>) -> (out: Result<(), Error>)
        ensures
            file_meets(out, old(regs)@, final(regs)@, Self::mathiw_spec(instruction, *old(regs))),
    {
        if instruction.id() != ADDIW {
            return Err(Error::InvalidOpCode);
        }
        let src1: u64 = ZeroOrRegister::from_u5(instruction.rs1).fetch(regs);
        let value: u64 = src1.addiw(instruction.imm);
        match ZeroOrRegister::from_u5(instruction.rd) {
            ZeroOrRegister::Zero => Err(Error::InvalidOpCode),
            ZeroOrRegister::Register(reg) => {
                *regs.get_mut(reg) = value;
                Ok(())
            },
        }
    }
}

/// The value of a shift of the low 32 bits by an immediate amount with the
/// key `id`, if there is such a shift.
pub open spec fn shiftw_value<T: BaseMathW>(id: nat, a: T, amount: T) -> Option<T> {
    if id == SLLIW {
        Some(a.slliw_spec(amount))
    } else if id == SRLIW {
        Some(a.srliw_spec(amount))
    } else if id == SRAIW {
        Some(a.sraiw_spec(amount))
    } else {
        None
    }
}

/// Shifts of the low 32 bits by an immediate amount, in a word of 64 bits.
///
/// The amount has five bits. The instruction fails where the amount is 32 or
/// more, where the bits above the amount are not those of one of the three
/// shifts, and where its destination is the zero register.
pub trait ShiftIW: Zero + Copy {
    spec fn shiftiw_spec(instruction: Shift, regs: Registers<Self>) -> Result<Seq<Self>, Error>;

    fn shiftiw(instruction: Shift, regs: &mut Registers<Self>) -> (out: Result<(), Error>)
        ensures
            file_meets(out, old(regs)@, final(regs)@, Self::shiftiw_spec(instruction, *old(regs))),
    ;
}

impl ShiftIW for u64 {
    open spec fn shiftiw_spec(instruction: Shift, regs: Registers<Self>) -> Result<Seq<Self>, Error> {
        if instruction.shamt@ >= 32 {
            Err(Error::InvalidOpCode)
        } else {
            match shiftw_value::<u64>(
                instruction.id_spec(),
                regs@[instruction.rs1@ as int],
                instruction.shamt@ as u64,
            ) {
                Some(value) => written(regs@, instruction.rd@, value),
                None => Err(Error::InvalidOpCode),
            }
        }
    }

    fn shiftiw(instruction: Shift, regs: &mut Registers<Self>) -> (out: Result<(), Error>)
        ensures
            file_meets(out, old(regs)@, final(regs)@, Self::shiftiw_spec(instruction, *old(regs))),
    {
        let amount: u64 = instruction.shamt.as_u64();
        if amount >= 32 {
            return Err(Error::InvalidOpCode);
        }
        let id: u16 = instruction.id();
        let src1: u64 = ZeroOrRegister::from_u5(instruction.rs1).fetch(regs);
        let value: u64 = if id == SLLIW {
            src1.slliw(amount)
        } else if id == SRLIW {
            src1.srliw(amount)
        } else if id == SRAIW {
            src1.sraiw(amount)
        } else {
            return Err(Error::InvalidOpCode);
        };
        match ZeroOrRegister::from_u5(instruction.rd) {
            ZeroOrRegister::Zero => Err(Error::InvalidOpCode),
            ZeroOrRegister::Register(reg) => {
                *regs.get_mut(reg) = value;
                Ok(())
            },
        }
    }
}

/// The program counter after an operation that returned `out`, as `expected`
/// says: on success it is the expected one, on failure it is as it was before.
pub open spec fn pc_meets<T>(out: Result<(), Error>, before: T, after: T, expected: Result<T, Error>) -> bool {
    match expected {
        Ok(next) => out == Ok::<(), Error>(()) && after == next,
        Err(e) => out == Err::<(), Error>(e) && after == before,
    }
}

/// The register file after a value that was loaded has been written to the
/// register `rd`: the error of the load where it failed, and the error where
/// `rd` is the zero register.
pub open spec fn loaded<T>(file: Seq<T>, rd: nat, value: Result<T, Error>) -> Result<Seq<T>, Error> {
    match value {
        Ok(word) => written(file, rd, word),
        Err(e) => Err(e),
    }
}

/// Loads from memory into an integer register.
///
/// The address is the sum of the source and the sign-extended immediate,
/// wrapping at the width of the word. The instruction fails where its key
/// selects no load, where the bytes do not lie inside the memory, and where
/// its destination is the zero register.
pub trait Load: Zero + Copy {
    spec fn load_spec(instruction: I, regs: Registers<Self>, memory: Seq<u8>) -> Result<
        Seq<Self>,
        Error,
    >;

    fn load(instruction: I, regs: &mut Registers<Self>, memory: &[u8]) -> (out: Result<(), Error>)
        ensures
            file_meets(
                out,
                old(regs)@,
                final(regs)@,
                Self::load_spec(instruction, *old(regs), memory@),
            ),
    ;
}

/// Stores from an integer register to memory.
///
/// The address is the sum of the first source and the sign-extended
/// immediate, wrapping at the width of the word; the low bytes of the second
/// source are stored. The instruction fails where its key selects no store
/// and where the bytes do not lie inside the memory. The registers do not
/// change.
pub trait Store: Zero + Copy {
    spec fn store_spec(instruction: S, regs: Registers<Self>, memory: Seq<u8>) -> Result<
        Seq<u8>,
        Error,
    >;

    fn store(instruction: S, regs: &mut Registers<Self>, memory: &mut [u8]) -> (out: Result<
        (),
        Error,
    >)
        ensures
            final(regs)@ == old(regs)@,
            store_meets(
                out,
                old(memory)@,
                final(memory)@,
                Self::store_spec(instruction, *old(regs), old(memory)@),
            ),
    ;
}

/// Whether the branch with the key `id` is taken, if there is such a branch.
pub open spec fn branch_taken<T: BaseBranch>(id: nat, a: T, b: T) -> Option<bool> {
    if id == BEQ {
        Some(a.beq_spec(b))
    } else if id == BNE {
        Some(a.bne_spec(b))
    } else if id == BLT {
        Some(a.blt_spec(b))
    } else if id == BGE {
        Some(a.bge_spec(b))
    } else if id == BLTU {
        Some(a.bltu_spec(b))
    } else if id == BGEU {
        Some(a.bgeu_spec(b))
    } else {
        None
    }
}

/// Conditional branches.
///
/// Where the branch is taken, the program counter receives the sum of its
/// old value and the sign-extended offset; where it is not, the program
/// counter advances by four. Both sums wrap at the width of the word. The
/// instruction fails where its key selects no branch. The registers do not
/// change.
pub trait Branch: Zero + Copy {
    spec fn branch_spec(instruction: B, regs: Registers<Self>, pc: Self) -> Result<Self, Error>;

    fn branch(instruction: B, regs: &mut Registers<Self>, pc: &mut Self) -> (out: Result<(), Error>)
        ensures
            final(regs)@ == old(regs)@,
            pc_meets(
                out,
                *old(pc),
                *final(pc),
                Self::branch_spec(instruction, *old(regs), *old(pc)),
            ),
    ;
}

/// Jump and link.
///
/// A destination other than the zero register receives the address of the
/// next instruction, the old program counter plus four. The program counter
/// receives the sum of its old value and the sign-extended offset. The
/// instruction always succeeds.
pub trait Jal: Zero + Copy {
    /// The address of the next instruction.
    spec fn link_spec(pc: Self) -> Self;

    /// The target of the jump.
    spec fn jal_target(instruction: J, pc: Self) -> Self;

    fn jal(instruction: J, regs: &mut Registers<Self>, pc: &mut Self) -> (out: Result<(), Error>)
        ensures
            out == Ok::<(), Error>(()),
            instruction.rd@ == 0 ==> final(regs)@ == old(regs)@,
            instruction.rd@ != 0 ==> final(regs)@ == old(regs)@.update(
                instruction.rd@ as int,
                Self::link_spec(*old(pc)),
            ),
            *final(pc) == Self::jal_target(instruction, *old(pc)),
    ;
}

/// Jump and link through a register.
///
/// The target is the sum of the source and the sign-extended immediate, with
/// its lowest bit cleared; the source is read before the destination is
/// written. A destination other than the zero register receives the address
/// of the next instruction, the old program counter plus four. The
/// instruction always succeeds.
pub trait Jalr: Zero + Copy {
    /// The address of the next instruction.
    spec fn return_spec(pc: Self) -> Self;

    /// The target of the jump.
    spec fn jalr_target(instruction: I, regs: Registers<Self>) -> Self;

    fn jalr(instruction: I, regs: &mut Registers<Self>, pc: &mut Self) -> (out: Result<(), Error>)
        ensures
            out == Ok::<(), Error>(()),
            instruction.rd@ == 0 ==> final(regs)@ == old(regs)@,
            instruction.rd@ != 0 ==> final(regs)@ == old(regs)@.update(
                instruction.rd@ as int,
                Self::return_spec(*old(pc)),
            ),
            *final(pc) == Self::jalr_target(instruction, *old(regs)),
    ;
}

/// Load of an upper immediate.
///
/// The destination receives the immediate, which stands in the upper 20 of
/// 32 bits; a word of 64 bits receives it sign-extended. The instruction
/// fails where its destination is the zero register.
pub trait Lui: Zero + Copy {
    spec fn lui_spec(instruction: U, regs: Registers<Self>) -> Result<Seq<Self>, Error>;

    fn lui(instruction: U, regs: &mut Registers<Self>) -> (out: Result<(), Error>)
        ensures
            file_meets(out, old(regs)@, final(regs)@, Self::lui_spec(instruction, *old(regs))),
    ;
}

/// Sum of the program counter and an upper immediate.
///
/// The destination receives the sum of the program counter and the
/// immediate, sign-extended in a word of 64 bits; the sum wraps at the width
/// of the word. The instruction fails where its destination is the zero
/// register.
pub trait Auipc: Zero + Copy {
    spec fn auipc_spec(instruction: U, regs: Registers<Self>, pc: Self) -> Result<Seq<Self>, Error>;

    fn auipc(instruction: U, regs: &mut Registers<Self>, pc: Self) -> (out: Result<(), Error>)
        ensures
            file_meets(
                out,
                old(regs)@,
                final(regs)@,
                Self::auipc_spec(instruction, *old(regs), pc),
            ),
    ;
}

/// The instructions of the base integer set.
pub trait BaseInstruction:
    Math + MathI + ShiftI + Load + Store + Branch + Jal + Jalr + Lui + Auipc
{
}

/// The address of a load or store in a word of 32 bits, where the machine
/// can hold it.
fn address32(base: u32, imm: crate::decode::U12) -> (out: Option<usize>)
    ensures
        out matches Some(addr) ==> addr == base.addi_spec(imm),
        out.is_none() ==> base.addi_spec(imm) > usize::MAX,
{
    let target: u32 = base.addi(imm);
    Some(target as usize)
}

impl Load for u32 {
    open spec fn load_spec(instruction: I, regs: Registers<Self>, memory: Seq<u8>) -> Result<
        Seq<Self>,
        Error,
    > {
        let addr = regs@[instruction.rs1@ as int].addi_spec(instruction.imm) as nat;
        let id = instruction.id_spec();
        let value = if id == LB {
            u32::lb_spec(memory, addr)
        } else if id == LBU {
            u32::lbu_spec(memory, addr)
        } else if id == LH {
            u32::lh_spec(memory, addr)
        } else if id == LHU {
            u32::lhu_spec(memory, addr)
        } else if id == LW {
            u32::lw_spec(memory, addr)
        } else {
            Err(Error::InvalidOpCode)
        };
        loaded(regs@, instruction.rd@, value)
    }

    fn load(instruction: I, regs: &mut Registers<Self>, memory: &[u8]) -> (out: Result<(), Error>)
        ensures
            file_meets(
                out,
                old(regs)@,
                final(regs)@,
                Self::load_spec(instruction, *old(regs), memory@),
            ),
    {
        let base: u32 = ZeroOrRegister::from_u5(instruction.rs1).fetch(regs);
        let id: u8 = instruction.id();
        let addr: usize = match address32(base, instruction.imm) {
            Some(addr) => addr,
            None => {
                assert(memory@.len() == memory.len());
                return Err(Error::InvalidOpCode);
            },
        };
        let loaded: Result<u32, Error> = if id == LB {
            u32::lb(memory, addr)
        } else if id == LBU {
            u32::lbu(memory, addr)
        } else if id == LH {
            u32::lh(memory, addr)
        } else if id == LHU {
            u32::lhu(memory, addr)
        } else if id == LW {
            u32::lw(memory, addr)
        } else {
            Err(Error::InvalidOpCode)
        };
        let value: u32 = match loaded {
            Ok(value) => value,
            Err(e) => {
                return Err(e);
            },
        };
        match ZeroOrRegister::from_u5(instruction.rd) {
            ZeroOrRegister::Zero => Err(Error::InvalidOpCode),
            ZeroOrRegister::Register(reg) => {
                *regs.get_mut(reg) = value;
                Ok(())
            },
        }
    }
}

impl Store for u32 {
    open spec fn store_spec(instruction: S, regs: Registers<Self>, memory: Seq<u8>) -> Result<
        Seq<u8>,
        Error,
    > {
        let addr = regs@[instruction.rs1@ as int].addi_spec(instruction.imm) as nat;
        let value = regs@[instruction.rs2@ as int];
        let id = instruction.id_spec();
        if id == SB {
            u32::sb_spec(value, memory, addr)
        } else if id == SH {
            u32::sh_spec(value, memory, addr)
        } else if id == SW {
            u32::sw_spec(value, memory, addr)
        } else {
            Err(Error::InvalidOpCode)
        }
    }

    fn store(instruction: S, regs: &mut Registers<Self>, memory: &mut [u8]) -> (out: Result<
        (),
        Error,
    >)
        ensures
            final(regs)@ == old(regs)@,
            store_meets(
                out,
                old(memory)@,
                final(memory)@,
                Self::store_spec(instruction, *old(regs), old(memory)@),
            ),
    {
        let base: u32 = ZeroOrRegister::from_u5(instruction.rs1).fetch(regs);
        let value: u32 = ZeroOrRegister::from_u5(instruction.rs2).fetch(regs);
        let id: u8 = instruction.id();
        let addr: usize = match address32(base, instruction.imm) {
            Some(addr) => addr,
            None => {
                assert(memory@.len() == memory.len());
                return Err(Error::InvalidOpCode);
            },
        };
        if id == SB {
            u32::sb(value, memory, addr)
        } else if id == SH {
            u32::sh(value, memory, addr)
        } else if id == SW {
            u32::sw(value, memory, addr)
        } else {
            Err(Error::InvalidOpCode)
        }
    }
}

impl Branch for u32 {
    open spec fn branch_spec(instruction: B, regs: Registers<Self>, pc: Self) -> Result<Self, Error> {
        match branch_taken::<u32>(
            instruction.id_spec(),
            regs@[instruction.rs1@ as int],
            regs@[instruction.rs2@ as int],
        ) {
            Some(taken) => Ok(
                if taken {
                    wrap32(pc + instruction.imm.signed())
                } else {
                    wrap32(pc + 4)
                },
            ),
            None => Err(Error::InvalidOpCode),
        }
    }

    fn branch(instruction: B, regs: &mut Registers<Self>, pc: &mut Self) -> (out: Result<(), Error>)
        ensures
            final(regs)@ == old(regs)@,
            pc_meets(
                out,
                *old(pc),
                *final(pc),
                Self::branch_spec(instruction, *old(regs), *old(pc)),
            ),
    {
        let id: u8 = instruction.id();
        let src1: u32 = ZeroOrRegister::from_u5(instruction.rs1).fetch(regs);
        let src2: u32 = ZeroOrRegister::from_u5(instruction.rs2).fetch(regs);
        let taken: bool = if id == BEQ {
            src1.beq(src2)
        } else if id == BNE {
            src1.bne(src2)
        } else if id == BLT {
            src1.blt(src2)
        } else if id == BGE {
            src1.bge(src2)
        } else if id == BLTU {
            src1.bltu(src2)
        } else if id == BGEU {
            src1.bgeu(src2)
        } else {
            return Err(Error::InvalidOpCode);
        };
        if taken {
            let offset: i32 = As::<i32>::cast(instruction.imm.sign_extend());
            *pc = UnsignedWrapping::wrapping_add_signed(*pc, offset);
        } else {
            *pc = Wrapping::wrapping_add(*pc, 4);
        }
        Ok(())
    }
}

impl Jal for u32 {
    open spec fn link_spec(pc: Self) -> Self {
        wrap32(pc + 4)
    }

    open spec fn jal_target(instruction: J, pc: Self) -> Self {
        wrap32(pc + instruction.imm.signed())
    }

    fn jal(instruction: J, regs: &mut Registers<Self>, pc: &mut Self) -> (out: Result<(), Error>)
        ensures
            out == Ok::<(), Error>(()),
            instruction.rd@ == 0 ==> final(regs)@ == old(regs)@,
            instruction.rd@ != 0 ==> final(regs)@ == old(regs)@.update(
                instruction.rd@ as int,
                Self::link_spec(*old(pc)),
            ),
            *final(pc) == Self::jal_target(instruction, *old(pc)),
    {
        if let ZeroOrRegister::Register(reg) = ZeroOrRegister::from_u5(instruction.rd) {
            *regs.get_mut(reg) = Wrapping::wrapping_add(*pc, 4);
        }
        let offset: i32 = As::<i32>::cast(instruction.imm.sign_extend());
        *pc = UnsignedWrapping::wrapping_add_signed(*pc, offset);
        Ok(())
    }
}

impl Jalr for u32 {
    open spec fn return_spec(pc: Self) -> Self {
        wrap32(pc + 4)
    }

    open spec fn jalr_target(instruction: I, regs: Registers<Self>) -> Self {
        let sum = regs@[instruction.rs1@ as int].addi_spec(instruction.imm);
        (sum - sum % 2) as u32
    }

    fn jalr(instruction: I, regs: &mut Registers<Self>, pc: &mut Self) -> (out: Result<(), Error>)
        ensures
            out == Ok::<(), Error>(()),
            instruction.rd@ == 0 ==> final(regs)@ == old(regs)@,
            instruction.rd@ != 0 ==> final(regs)@ == old(regs)@.update(
                instruction.rd@ as int,
                Self::return_spec(*old(pc)),
            ),
            *final(pc) == Self::jalr_target(instruction, *old(regs)),
    {
        let base: u32 = ZeroOrRegister::from_u5(instruction.rs1).fetch(regs);
        let sum: u32 = base.addi(instruction.imm);
        let next: u32 = sum - sum % 2;
        if let ZeroOrRegister::Register(reg) = ZeroOrRegister::from_u5(instruction.rd) {
            *regs.get_mut(reg) = Wrapping::wrapping_add(*pc, 4);
        }
        *pc = next;
        Ok(())
    }
}

impl Lui for u32 {
    open spec fn lui_spec(instruction: U, regs: Registers<Self>) -> Result<Seq<Self>, Error> {
        written(regs@, instruction.rd@, instruction.imm)
    }

    fn lui(instruction: U, regs: &mut Registers<Self>) -> (out: Result<(), Error>)
        ensures
            file_meets(out, old(regs)@, final(regs)@, Self::lui_spec(instruction, *old(regs))),
    {
        let value: u32 = instruction.imm;
        match ZeroOrRegister::from_u5(instruction.rd) {
            ZeroOrRegister::Zero => Err(Error::InvalidOpCode),
            ZeroOrRegister::Register(reg) => {
                *regs.get_mut(reg) = value;
                Ok(())
            },
        }
    }
}

impl Auipc for u32 {
    open spec fn auipc_spec(instruction: U, regs: Registers<Self>, pc: Self) -> Result<Seq<Self>, Error> {
        written(regs@, instruction.rd@, wrap32(pc + instruction.imm))
    }

    fn auipc(instruction: U, regs: &mut Registers<Self>, pc: Self) -> (out: Result<(), Error>)
        ensures
            file_meets(
                out,
                old(regs)@,
                final(regs)@,
                Self::auipc_spec(instruction, *old(regs), pc),
            ),
    {
        let upper: u32 = instruction.imm;
        let value: u32 = Wrapping::wrapping_add(pc, upper);
        match ZeroOrRegister::from_u5(instruction.rd) {
            ZeroOrRegister::Zero => Err(Error::InvalidOpCode),
            ZeroOrRegister::Register(reg) => {
                *regs.get_mut(reg) = value;
                Ok(())
            },
        }
    }
}

impl BaseInstruction for u32 {
}

/// The address of a load or store in a word of 64 bits, where the machine
/// can hold it.
fn address64(base: u64, imm: crate::decode::U12) -> (out: Option<usize>)
    ensures
        out matches Some(addr) ==> addr == base.addi_spec(imm),
        out.is_none() ==> base.addi_spec(imm) > usize::MAX,
{
    let target: u64 = base.addi(imm);
    if target > usize::MAX as u64 {
        None
    } else {
        Some(target as usize)
    }
}

impl Load for u64 {
    open spec fn load_spec(instruction: I, regs: Registers<Self>, memory: Seq<u8>) -> Result<
        Seq<Self>,
        Error,
    > {
        let addr = regs@[instruction.rs1@ as int].addi_spec(instruction.imm) as nat;
        let id = instruction.id_spec();
        let value = if id == LB {
            u64::lb_spec(memory, addr)
        } else if id == LBU {
            u64::lbu_spec(memory, addr)
        } else if id == LH {
            u64::lh_spec(memory, addr)
        } else if id == LHU {
            u64::lhu_spec(memory, addr)
        } else if id == LW {
            u64::lw_spec(memory, addr)
        } else if id == LWU {
            u64::lwu_spec(memory, addr)
        } else if id == LD {
            u64::ld_spec(memory, addr)
        } else {
            Err(Error::InvalidOpCode)
        };
        loaded(regs@, instruction.rd@, value)
    }

    fn load(instruction: I, regs: &mut Registers<Self>, memory: &[u8]) -> (out: Result<(), Error>)
        ensures
            file_meets(
                out,
                old(regs)@,
                final(regs)@,
                Self::load_spec(instruction, *old(regs), memory@),
            ),
    {
        let base: u64 = ZeroOrRegister::from_u5(instruction.rs1).fetch(regs);
        let id: u8 = instruction.id();
        let addr: usize = match address64(base, instruction.imm) {
            Some(addr) => addr,
            None => {
                assert(memory@.len() == memory.len());
                return Err(Error::InvalidOpCode);
            },
        };
        let loaded: Result<u64, Error> = if id == LB {
            u64::lb(memory, addr)
        } else if id == LBU {
            u64::lbu(memory, addr)
        } else if id == LH {
            u64::lh(memory, addr)
        } else if id == LHU {
            u64::lhu(memory, addr)
        } else if id == LW {
            u64::lw(memory, addr)
        } else if id == LWU {
            u64::lwu(memory, addr)
        } else if id == LD {
            u64::ld(memory, addr)
        } else {
            Err(Error::InvalidOpCode)
        };
        let value: u64 = match loaded {
            Ok(value) => value,
            Err(e) => {
                return Err(e);
            },
        };
        match ZeroOrRegister::from_u5(instruction.rd) {
            ZeroOrRegister::Zero => Err(Error::InvalidOpCode),
            ZeroOrRegister::Register(reg) => {
                *regs.get_mut(reg) = value;
                Ok(())
            },
        }
    }
}

impl Store for u64 {
    open spec fn store_spec(instruction: S, regs: Registers<Self>, memory: Seq<u8>) -> Result<
        Seq<u8>,
        Error,
    > {
        let addr = regs@[instruction.rs1@ as int].addi_spec(instruction.imm) as nat;
        let value = regs@[instruction.rs2@ as int];
        let id = instruction.id_spec();
        if id == SB {
            u64::sb_spec(value, memory, addr)
        } else if id == SH {
            u64::sh_spec(value, memory, addr)
        } else if id == SW {
            u64::sw_spec(value, memory, addr)
        } else if id == SD {
            u64::sd_spec(value, memory, addr)
        } else {
            Err(Error::InvalidOpCode)
        }
    }

    fn store(instruction: S, regs: &mut Registers<Self>, memory: &mut [u8]) -> (out: Result<
        (),
        Error,
    >)
        ensures
            final(regs)@ == old(regs)@,
            store_meets(
                out,
                old(memory)@,
                final(memory)@,
                Self::store_spec(instruction, *old(regs), old(memory)@),
            ),
    {
        let base: u64 = ZeroOrRegister::from_u5(instruction.rs1).fetch(regs);
        let value: u64 = ZeroOrRegister::from_u5(instruction.rs2).fetch(regs);
        let id: u8 = instruction.id();
        let addr: usize = match address64(base, instruction.imm) {
            Some(addr) => addr,
            None => {
                assert(memory@.len() == memory.len());
                return Err(Error::InvalidOpCode);
            },
        };
        if id == SB {
            u64::sb(value, memory, addr)
        } else if id == SH {
            u64::sh(value, memory, addr)
        } else if id == SW {
            u64::sw(value, memory, addr)
        } else if id == SD {
            u64::sd(value, memory, addr)
        } else {
            Err(Error::InvalidOpCode)
        }
    }
}

impl Branch for u64 {
    open spec fn branch_spec(instruction: B, regs: Registers<Self>, pc: Self) -> Result<Self, Error> {
        match branch_taken::<u64>(
            instruction.id_spec(),
            regs@[instruction.rs1@ as int],
            regs@[instruction.rs2@ as int],
        ) {
            Some(taken) => Ok(
                if taken {
                    wrap64(pc + instruction.imm.signed())
                } else {
                    wrap64(pc + 4)
                },
            ),
            None => Err(Error::InvalidOpCode),
        }
    }

    fn branch(instruction: B, regs: &mut Registers<Self>, pc: &mut Self) -> (out: Result<(), Error>)
        ensures
            final(regs)@ == old(regs)@,
            pc_meets(
                out,
                *old(pc),
                *final(pc),
                Self::branch_spec(instruction, *old(regs), *old(pc)),
            ),
    {
        let id: u8 = instruction.id();
        let src1: u64 = ZeroOrRegister::from_u5(instruction.rs1).fetch(regs);
        let src2: u64 = ZeroOrRegister::from_u5(instruction.rs2).fetch(regs);
        let taken: bool = if id == BEQ {
            src1.beq(src2)
        } else if id == BNE {
            src1.bne(src2)
        } else if id == BLT {
            src1.blt(src2)
        } else if id == BGE {
            src1.bge(src2)
        } else if id == BLTU {
            src1.bltu(src2)
        } else if id == BGEU {
            src1.bgeu(src2)
        } else {
            return Err(Error::InvalidOpCode);
        };
        if taken {
            let offset: i64 = As::<i64>::cast(instruction.imm.sign_extend());
            *pc = UnsignedWrapping::wrapping_add_signed(*pc, offset);
        } else {
            *pc = Wrapping::wrapping_add(*pc, 4);
        }
        Ok(())
    }
}

impl Jal for u64 {
    open spec fn link_spec(pc: Self) -> Self {
        wrap64(pc + 4)
    }

    open spec fn jal_target(instruction: J, pc: Self) -> Self {
        wrap64(pc + instruction.imm.signed())
    }

    fn jal(instruction: J, regs: &mut Registers<Self>, pc: &mut Self) -> (out: Result<(), Error>)
        ensures
            out == Ok::<(), Error>(()),
            instruction.rd@ == 0 ==> final(regs)@ == old(regs)@,
            instruction.rd@ != 0 ==> final(regs)@ == old(regs)@.update(
                instruction.rd@ as int,
                Self::link_spec(*old(pc)),
            ),
            *final(pc) == Self::jal_target(instruction, *old(pc)),
    {
        if let ZeroOrRegister::Register(reg) = ZeroOrRegister::from_u5(instruction.rd) {
            *regs.get_mut(reg) = Wrapping::wrapping_add(*pc, 4);
        }
        let offset: i64 = As::<i64>::cast(instruction.imm.sign_extend());
        *pc = UnsignedWrapping::wrapping_add_signed(*pc, offset);
        Ok(())
    }
}

impl Jalr for u64 {
    open spec fn return_spec(pc: Self) -> Self {
        wrap64(pc + 4)
    }

    open spec fn jalr_target(instruction: I, regs: Registers<Self>) -> Self {
        let sum = regs@[instruction.rs1@ as int].addi_spec(instruction.imm);
        (sum - sum % 2) as u64
    }

    fn jalr(instruction: I, regs: &mut Registers<Self>, pc: &mut Self) -> (out: Result<(), Error>)
        ensures
            out == Ok::<(), Error>(()),
            instruction.rd@ == 0 ==> final(regs)@ == old(regs)@,
            instruction.rd@ != 0 ==> final(regs)@ == old(regs)@.update(
                instruction.rd@ as int,
                Self::return_spec(*old(pc)),
            ),
            *final(pc) == Self::jalr_target(instruction, *old(regs)),
    {
        let base: u64 = ZeroOrRegister::from_u5(instruction.rs1).fetch(regs);
        let sum: u64 = base.addi(instruction.imm);
        let next: u64 = sum - sum % 2;
        if let ZeroOrRegister::Register(reg) = ZeroOrRegister::from_u5(instruction.rd) {
            *regs.get_mut(reg) = Wrapping::wrapping_add(*pc, 4);
        }
        *pc = next;
        Ok(())
    }
}

impl Lui for u64 {
    open spec fn lui_spec(instruction: U, regs: Registers<Self>) -> Result<Seq<Self>, Error> {
        written(regs@, instruction.rd@, sext32(instruction.imm))
    }

    fn lui(instruction: U, regs: &mut Registers<Self>) -> (out: Result<(), Error>)
        ensures
            file_meets(out, old(regs)@, final(regs)@, Self::lui_spec(instruction, *old(regs))),
    {
        let value: u64 = As::<u64>::cast(Bitcast::<i32>::bitcast(instruction.imm));
        match ZeroOrRegister::from_u5(instruction.rd) {
            ZeroOrRegister::Zero => Err(Error::InvalidOpCode),
            ZeroOrRegister::Register(reg) => {
                *regs.get_mut(reg) = value;
                Ok(())
            },
        }
    }
}

impl Auipc for u64 {
    open spec fn auipc_spec(instruction: U, regs: Registers<Self>, pc: Self) -> Result<Seq<Self>, Error> {
        written(regs@, instruction.rd@, wrap64(pc + sext32(instruction.imm)))
    }

    fn auipc(instruction: U, regs: &mut Registers<Self>, pc: Self) -> (out: Result<(), Error>)
        ensures
            file_meets(
                out,
                old(regs)@,
                final(regs)@,
                Self::auipc_spec(instruction, *old(regs), pc),
            ),
    {
        let upper: u64 = As::<u64>::cast(Bitcast::<i32>::bitcast(instruction.imm));
        let value: u64 = Wrapping::wrapping_add(pc, upper);
        match ZeroOrRegister::from_u5(instruction.rd) {
            ZeroOrRegister::Zero => Err(Error::InvalidOpCode),
            ZeroOrRegister::Register(reg) => {
                *regs.get_mut(reg) = value;
                Ok(())
            },
        }
    }
}

impl BaseInstruction for u64 {
}

/// The new value of a control and status register under the operation with
/// the key `id`, if there is such an operation. The register operations take
/// `src` as their source, the immediate ones take `imm`.
pub open spec fn csr_value<T: BaseCsr>(id: nat, src: T, imm: crate::decode::U5, old_value: T) -> Option<T> {
    if id == CSRRW {
        Some(T::csrrw_spec(src, old_value))
    } else if id == CSRRS {
        Some(T::csrrs_spec(src, old_value))
    } else if id == CSRRC {
        Some(T::csrrc_spec(src, old_value))
    } else if id == CSRRWI {
        Some(T::csrrwi_spec(imm, old_value))
    } else if id == CSRRSI {
        Some(T::csrrsi_spec(imm, old_value))
    } else if id == CSRRCI {
        Some(T::csrrci_spec(imm, old_value))
    } else {
        None
    }
}

/// Whether the operation with the key `id` leaves the control and status
/// register unwritten: a register form whose source is the zero register, and
/// a set or clear form whose immediate is zero. The write form with an
/// immediate always writes, also the immediate zero.
pub open spec fn csr_write_suppressed(id: nat, source_field: nat) -> bool {
    source_field == 0 && (id == CSRRW || id == CSRRS || id == CSRRC || id == CSRRSI || id
        == CSRRCI)
}

/// Operations on control and status registers.
///
/// The destination receives the old value of the register at the address in
/// the immediate. Nothing is written to the register where the source of a
/// register form is the zero register, and where the immediate of a set or
/// clear form is zero, so that a read-only register can be read. In every
/// other case, which includes the write form with the immediate zero, the
/// register receives its new value, and the instruction fails where the
/// register is read-only. The instruction also fails where its key selects
/// no operation and where its destination is the zero register. Where it
/// fails, nothing changes.
pub trait Csr: Zero + Copy {
    /// The integer registers and the control and status registers after the
    /// instruction.
    spec fn csr_spec(instruction: I, regs: Registers<Self>, csrs: CsrRegisters<Self>) -> Result<
        (Seq<Self>, Seq<Self>),
        Error,
    >;

    fn csr(instruction: I, regs: &mut Registers<Self>, csrs: &mut CsrRegisters<Self>) -> (out:
        Result<(), Error>)
        ensures
            match Self::csr_spec(instruction, *old(regs), *old(csrs)) {
                Ok((file, control)) => out == Ok::<(), Error>(()) && final(regs)@ == file
                    && final(csrs)@ == control,
                Err(e) => out == Err::<(), Error>(e) && final(regs)@ == old(regs)@
                    && final(csrs)@ == old(csrs)@,
            },
    ;
}

impl<T: Copy + Zero + BaseCsr> Csr for T {
    open spec fn csr_spec(instruction: I, regs: Registers<Self>, csrs: CsrRegisters<Self>) -> Result<
        (Seq<Self>, Seq<Self>),
        Error,
    > {
        let addr = instruction.imm@ as int;
        let old_value = csrs@[addr];
        match csr_value::<T>(
            instruction.id_spec(),
            regs@[instruction.rs1@ as int],
            instruction.rs1,
            old_value,
        ) {
            None => Err(Error::InvalidOpCode),
            Some(new_value) => if instruction.rd@ == 0 {
                Err(Error::InvalidOpCode)
            } else if csr_write_suppressed(instruction.id_spec(), instruction.rs1@) {
                Ok((regs@.update(instruction.rd@ as int, old_value), csrs@))
            } else if csr_read_only(addr as nat) {
                Err(Error::InvalidOpCode)
            } else {
                Ok((regs@.update(instruction.rd@ as int, old_value), csrs@.update(addr, new_value)))
            },
        }
    }

    fn csr(instruction: I, regs: &mut Registers<Self>, csrs: &mut CsrRegisters<Self>) -> (out:
        Result<(), Error>)
        ensures
            match Self::csr_spec(instruction, *old(regs), *old(csrs)) {
                Ok((file, control)) => out == Ok::<(), Error>(()) && final(regs)@ == file
                    && final(csrs)@ == control,
                Err(e) => out == Err::<(), Error>(e) && final(regs)@ == old(regs)@
                    && final(csrs)@ == old(csrs)@,
            },
    {
        let id: u8 = instruction.id();
        let addr: usize = instruction.imm.as_u16() as usize;
        if !(id == CSRRW || id == CSRRS || id == CSRRC || id == CSRRWI || id == CSRRSI || id
            == CSRRCI) {
            return Err(Error::InvalidOpCode);
        }
        let target: Register = match ZeroOrRegister::from_u5(instruction.rd) {
            ZeroOrRegister::Zero => {
                return Err(Error::InvalidOpCode);
            },
            ZeroOrRegister::Register(reg) => reg,
        };
        if instruction.rs1.as_u8() == 0 && id != CSRRWI {
            *regs.get_mut(target) = csrs.get(addr);
            return Ok(());
        }
        let src: T = ZeroOrRegister::from_u5(instruction.rs1).fetch(regs);
        let slot: &mut T = match csrs.get_mut(addr) {
            None => {
                return Err(Error::InvalidOpCode);
            },
            Some(slot) => slot,
        };
        let dest: &mut T = regs.get_mut(target);
        let value: T = if id == CSRRW {
            T::csrrw(src, dest, slot)
        } else if id == CSRRS {
            T::csrrs(src, dest, slot)
        } else if id == CSRRC {
            T::csrrc(src, dest, slot)
        } else if id == CSRRWI {
            T::csrrwi(instruction.rs1, dest, slot)
        } else if id == CSRRSI {
            T::csrrsi(instruction.rs1, dest, slot)
        } else {
            T::csrrci(instruction.rs1, dest, slot)
        };
        *slot = value;
        Ok(())
    }
}

/// What became of an instruction that did not fail.
#[derive(Clone, Copy, Debug, PartialEq, Eq, Structural)]
pub enum Outcome {
    /// The instruction is done.
    Retired,
    /// The instruction is done but for its result: a rounding operation on
    /// single-precision numbers, whose result the caller computes and writes
    /// with `FloatRequest::complete`.
    Pending(FloatRequest),
}

/// The value of a single-precision operation that takes floating-point
/// registers and gives a floating-point register, if `fid` is the key of one
/// that is defined on bit patterns.
pub open spec fn float_value(fid: nat, a: u32, b: u32) -> Option<u32> {
    if fid == FSGNJ_S {
        Some(a.fsgnj_spec(b))
    } else if fid == FSGNJN_S {
        Some(a.fsgnjn_spec(b))
    } else if fid == FSGNJNX_S {
        Some(a.fsgnjx_spec(b))
    } else if fid == FMIN_S {
        Some(a.fmin_spec(b))
    } else if fid == FMAX_S {
        Some(a.fmax_spec(b))
    } else {
        None
    }
}

/// The value of a single-precision operation that takes floating-point
/// registers and gives an integer register, if `fid` is the key of one.
pub open spec fn float_to_integer_value(fid: nat, a: u32, b: u32) -> Option<u32> {
    if fid == FCVT_W_S {
        Some(a.fcvtws_spec(0))
    } else if fid == FCVT_WU_S {
        Some(a.fcvtwus_spec(0))
    } else if fid == FMV_X_W {
        Some(a.fmvxw_spec(0))
    } else if fid == FEQ_S {
        Some(a.feq_spec(b))
    } else if fid == FLT_S {
        Some(a.flt_spec(b))
    } else if fid == FLE_S {
        Some(a.fle_spec(b))
    } else if fid == FCLASS_S {
        Some(a.fclass_spec(0))
    } else {
        None
    }
}

/// The rounding operation on floating-point registers with the key `fid`, if
/// there is one. The square root takes one operand, the others two.
pub open spec fn rounding_op(fid: nat) -> Option<FloatOp> {
    if fid == FADD_S {
        Some(FloatOp::Fadd)
    } else if fid == FSUB_S {
        Some(FloatOp::Fsub)
    } else if fid == FMUL_S {
        Some(FloatOp::Fmul)
    } else if fid == FDIV_S {
        Some(FloatOp::Fdiv)
    } else if fid == FSQRT_S {
        Some(FloatOp::Fsqrt)
    } else {
        None
    }
}

/// The conversion from an integer register with the key `fid`, if there is
/// one.
pub open spec fn conversion_op(fid: nat) -> Option<FloatOp> {
    if fid == FCVT_S_W {
        Some(FloatOp::Fcvtsw)
    } else if fid == FCVT_S_WU {
        Some(FloatOp::Fcvtswu)
    } else {
        None
    }
}

/// The second operand of a rounding operation: zero for the square root.
pub open spec fn second_operand(op: FloatOp, b: u32) -> u32 {
    if op == FloatOp::Fsqrt {
        0
    } else {
        b
    }
}

/// What a single-precision instruction in register format does to the
/// floating-point registers `fregs` and the integer registers `xregs`.
///
/// The operands are the low 32 bits of the source registers, and a result is
/// written zero-extended. The instruction fails where its destination is the
/// register 0 and where its key selects no operation.
pub open spec fn floats_result<T>(instruction: R, fregs: Seq<T>, xregs: Seq<T>) -> Result<
    (Seq<T>, Seq<T>, Outcome),
    Error,
> where T: As<u32>, u32: As<T> {
    let fid = instruction.fid_spec();
    let rd = instruction.rd@ as int;
    let fa = fregs[instruction.rs1@ as int].cast_spec();
    let fb = fregs[instruction.rs2@ as int].cast_spec();
    let xa = xregs[instruction.rs1@ as int].cast_spec();
    if instruction.rd@ == 0 {
        Err(Error::InvalidOpCode)
    } else if let Some(value) = float_value(fid, fa, fb) {
        Ok((fregs.update(rd, As::<T>::cast_spec(value)), xregs, Outcome::Retired))
    } else if let Some(value) = float_to_integer_value(fid, fa, fb) {
        Ok((fregs, xregs.update(rd, As::<T>::cast_spec(value)), Outcome::Retired))
    } else if fid == FMV_W_X {
        Ok((fregs.update(rd, As::<T>::cast_spec(xa.fmvwx_spec(0))), xregs, Outcome::Retired))
    } else if let Some(op) = rounding_op(fid) {
        Ok(
            (
                fregs,
                xregs,
                Outcome::Pending(
                    FloatRequest {
                        op,
                        a: fa,
                        b: second_operand(op, fb),
                        c: 0,
                        rd: Register::of(instruction.rd@),
                    },
                ),
            ),
        )
    } else if let Some(op) = conversion_op(fid) {
        Ok(
            (
                fregs,
                xregs,
                Outcome::Pending(
                    FloatRequest { op, a: xa, b: 0, c: 0, rd: Register::of(instruction.rd@) },
                ),
            ),
        )
    } else {
        Err(Error::InvalidOpCode)
    }
}

/// Single-precision operations in register format.
///
/// An operation that is defined on bit patterns is performed, and the
/// instruction retires. A rounding operation is handed out: the outcome is
/// pending, both register files are unchanged, and the request names the
/// operation, its operands and the destination. The instruction fails where
/// its destination is the register 0 and where its key selects no
/// operation; then nothing changes.
pub trait FloatS: Zero + Copy {
    spec fn floats_spec(instruction: R, fregs: Registers<Self>, xregs: Registers<Self>) -> Result<
        (Seq<Self>, Seq<Self>, Outcome),
        Error,
    >;

    fn floats(instruction: R, fregs: &mut Registers<Self>, xregs: &mut Registers<Self>) -> (out:
        Result<Outcome, Error>)
        ensures
            match Self::floats_spec(instruction, *old(fregs), *old(xregs)) {
                Ok((floats, integers, outcome)) => out == Ok::<Outcome, Error>(outcome)
                    && final(fregs)@ == floats && final(xregs)@ == integers,
                Err(e) => out == Err::<Outcome, Error>(e) && final(fregs)@ == old(fregs)@
                    && final(xregs)@ == old(xregs)@,
            },
    ;
}

impl<T> FloatS for T where T: Copy + Zero + As<u32>, u32: As<T> {
    open spec fn floats_spec(instruction: R, fregs: Registers<Self>, xregs: Registers<Self>) -> Result<
        (Seq<Self>, Seq<Self>, Outcome),
        Error,
    > {
        floats_result::<T>(instruction, fregs@, xregs@)
    }

    fn floats(instruction: R, fregs: &mut Registers<Self>, xregs: &mut Registers<Self>) -> (out:
        Result<Outcome, Error>)
        ensures
            match Self::floats_spec(instruction, *old(fregs), *old(xregs)) {
                Ok((floats, integers, outcome)) => out == Ok::<Outcome, Error>(outcome)
                    && final(fregs)@ == floats && final(xregs)@ == integers,
                Err(e) => out == Err::<Outcome, Error>(e) && final(fregs)@ == old(fregs)@
                    && final(xregs)@ == old(xregs)@,
            },
    {
        let target: Register = match ZeroOrRegister::from_u5(instruction.rd) {
            ZeroOrRegister::Zero => {
                return Err(Error::InvalidOpCode);
            },
            ZeroOrRegister::Register(reg) => reg,
        };
        let fid: u16 = instruction.fid();
        let fa: u32 = As::<u32>::cast(ZeroOrRegister::from_u5(instruction.rs1).fetch(fregs));
        let fb: u32 = As::<u32>::cast(ZeroOrRegister::from_u5(instruction.rs2).fetch(fregs));
        let xa: u32 = As::<u32>::cast(ZeroOrRegister::from_u5(instruction.rs1).fetch(xregs));
        if fid == FSGNJ_S {
            *fregs.get_mut(target) = As::<T>::cast(fa.fsgnj(fb));
        } else if fid == FSGNJN_S {
            *fregs.get_mut(target) = As::<T>::cast(fa.fsgnjn(fb));
        } else if fid == FSGNJNX_S {
            *fregs.get_mut(target) = As::<T>::cast(fa.fsgnjx(fb));
        } else if fid == FMIN_S {
            *fregs.get_mut(target) = As::<T>::cast(fa.fmin(fb));
        } else if fid == FMAX_S {
            *fregs.get_mut(target) = As::<T>::cast(fa.fmax(fb));
        } else if fid == FCVT_W_S {
            *xregs.get_mut(target) = As::<T>::cast(fa.fcvtws(0));
        } else if fid == FCVT_WU_S {
            *xregs.get_mut(target) = As::<T>::cast(fa.fcvtwus(0));
        } else if fid == FMV_X_W {
            *xregs.get_mut(target) = As::<T>::cast(fa.fmvxw(0));
        } else if fid == FEQ_S {
            *xregs.get_mut(target) = As::<T>::cast(fa.feq(fb));
        } else if fid == FLT_S {
            *xregs.get_mut(target) = As::<T>::cast(fa.flt(fb));
        } else if fid == FLE_S {
            *xregs.get_mut(target) = As::<T>::cast(fa.fle(fb));
        } else if fid == FCLASS_S {
            *xregs.get_mut(target) = As::<T>::cast(fa.fclass(0));
        } else if fid == FMV_W_X {
            *fregs.get_mut(target) = As::<T>::cast(xa.fmvwx(0));
        } else if fid == FADD_S {
            return Ok(Outcome::Pending(FloatRequest { op: FloatOp::Fadd, a: fa, b: fb, c: 0, rd: target }));
        } else if fid == FSUB_S {
            return Ok(Outcome::Pending(FloatRequest { op: FloatOp::Fsub, a: fa, b: fb, c: 0, rd: target }));
        } else if fid == FMUL_S {
            return Ok(Outcome::Pending(FloatRequest { op: FloatOp::Fmul, a: fa, b: fb, c: 0, rd: target }));
        } else if fid == FDIV_S {
            return Ok(Outcome::Pending(FloatRequest { op: FloatOp::Fdiv, a: fa, b: fb, c: 0, rd: target }));
        } else if fid == FSQRT_S {
            return Ok(Outcome::Pending(FloatRequest { op: FloatOp::Fsqrt, a: fa, b: 0, c: 0, rd: target }));
        } else if fid == FCVT_S_W {
            return Ok(Outcome::Pending(FloatRequest { op: FloatOp::Fcvtsw, a: xa, b: 0, c: 0, rd: target }));
        } else if fid == FCVT_S_WU {
            return Ok(Outcome::Pending(FloatRequest { op: FloatOp::Fcvtswu, a: xa, b: 0, c: 0, rd: target }));
        } else {
            return Err(Error::InvalidOpCode);
        }
        Ok(Outcome::Retired)
    }
}

/// Load of a single-precision number into a floating-point register.
///
/// The address is the sum of the integer source and the sign-extended
/// immediate. The instruction fails where its key is not that of the load,
/// where the bytes do not lie inside the memory, and where its destination is
/// the register 0. The integer registers and the memory do not change.
pub trait Fload: Zero + Copy {
    /// The floating-point registers after the instruction.
    spec fn fload_spec(
        instruction: I,
        xregs: Registers<Self>,
        fregs: Registers<Self>,
        memory: Seq<u8>,
    ) -> Result<Seq<Self>, Error>;

    fn fload(
        instruction: I,
        xregs: &mut Registers<Self>,
        fregs: &mut Registers<Self>,
        memory: &mut [u8],
    ) -> (out: Result<(), Error>)
        ensures
            final(xregs)@ == old(xregs)@,
            final(memory)@ == old(memory)@,
            file_meets(
                out,
                old(fregs)@,
                final(fregs)@,
                Self::fload_spec(instruction, *old(xregs), *old(fregs), old(memory)@),
            ),
    ;
}

/// Store of a single-precision number from a floating-point register.
///
/// The address is the sum of the integer source and the sign-extended
/// immediate. The instruction fails where its key is not that of the store
/// and where the bytes do not lie inside the memory. The registers do not
/// change.
pub trait Fstore: Zero + Copy {
    /// The memory after the instruction.
    spec fn fstore_spec(
        instruction: S,
        xregs: Registers<Self>,
        fregs: Registers<Self>,
        memory: Seq<u8>,
    ) -> Result<Seq<u8>, Error>;

    fn fstore(
        instruction: S,
        xregs: &mut Registers<Self>,
        fregs: &mut Registers<Self>,
        memory: &mut [u8],
    ) -> (out: Result<(), Error>)
        ensures
            final(xregs)@ == old(xregs)@,
            final(fregs)@ == old(fregs)@,
            store_meets(
                out,
                old(memory)@,
                final(memory)@,
                Self::fstore_spec(instruction, *old(xregs), *old(fregs), old(memory)@),
            ),
    ;
}

impl Fload for u32 {
    open spec fn fload_spec(
        instruction: I,
        xregs: Registers<Self>,
        fregs: Registers<Self>,
        memory: Seq<u8>,
    ) -> Result<Seq<Self>, Error> {
        let addr = xregs@[instruction.rs1@ as int].addi_spec(instruction.imm) as nat;
        if instruction.id_spec() == FLW {
            loaded(fregs@, instruction.rd@, u32::flw_spec(memory, addr))
        } else {
            Err(Error::InvalidOpCode)
        }
    }

    fn fload(
        instruction: I,
        xregs: &mut Registers<Self>,
        fregs: &mut Registers<Self>,
        memory: &mut [u8],
    ) -> (out: Result<(), Error>)
        ensures
            final(xregs)@ == old(xregs)@,
            final(memory)@ == old(memory)@,
            file_meets(
                out,
                old(fregs)@,
                final(fregs)@,
                Self::fload_spec(instruction, *old(xregs), *old(fregs), old(memory)@),
            ),
    {
        if instruction.id() != FLW {
            return Err(Error::InvalidOpCode);
        }
        let base: u32 = ZeroOrRegister::from_u5(instruction.rs1).fetch(xregs);
        let addr: usize = match address32(base, instruction.imm) {
            Some(addr) => addr,
            None => {
                assert(memory@.len() == memory.len());
                return Err(Error::InvalidOpCode);
            },
        };
        let value: u32 = match u32::flw(memory, addr) {
            Ok(value) => value,
            Err(e) => {
                return Err(e);
            },
        };
        match ZeroOrRegister::from_u5(instruction.rd) {
            ZeroOrRegister::Zero => Err(Error::InvalidOpCode),
            ZeroOrRegister::Register(reg) => {
                *fregs.get_mut(reg) = value;
                Ok(())
            },
        }
    }
}

impl Fstore for u32 {
    open spec fn fstore_spec(
        instruction: S,
        xregs: Registers<Self>,
        fregs: Registers<Self>,
        memory: Seq<u8>,
    ) -> Result<Seq<u8>, Error> {
        let addr = xregs@[instruction.rs1@ as int].addi_spec(instruction.imm) as nat;
        if instruction.id_spec() == FSW {
            u32::fsw_spec(fregs@[instruction.rs2@ as int], memory, addr)
        } else {
            Err(Error::InvalidOpCode)
        }
    }

    fn fstore(
        instruction: S,
        xregs: &mut Registers<Self>,
        fregs: &mut Registers<Self>,
        memory: &mut [u8],
    ) -> (out: Result<(), Error>)
        ensures
            final(xregs)@ == old(xregs)@,
            final(fregs)@ == old(fregs)@,
            store_meets(
                out,
                old(memory)@,
                final(memory)@,
                Self::fstore_spec(instruction, *old(xregs), *old(fregs), old(memory)@),
            ),
    {
        if instruction.id() != FSW {
            return Err(Error::InvalidOpCode);
        }
        let base: u32 = ZeroOrRegister::from_u5(instruction.rs1).fetch(xregs);
        let value: u32 = ZeroOrRegister::from_u5(instruction.rs2).fetch(fregs);
        let addr: usize = match address32(base, instruction.imm) {
            Some(addr) => addr,
            None => {
                assert(memory@.len() == memory.len());
                return Err(Error::InvalidOpCode);
            },
        };
        u32::fsw(value, memory, addr)
    }
}

impl Fload for u64 {
    open spec fn fload_spec(
        instruction: I,
        xregs: Registers<Self>,
        fregs: Registers<Self>,
        memory: Seq<u8>,
    ) -> Result<Seq<Self>, Error> {
        let addr = xregs@[instruction.rs1@ as int].addi_spec(instruction.imm) as nat;
        if instruction.id_spec() == FLW {
            loaded(fregs@, instruction.rd@, u64::flw_spec(memory, addr))
        } else {
            Err(Error::InvalidOpCode)
        }
    }

    fn fload(
        instruction: I,
        xregs: &mut Registers<Self>,
        fregs: &mut Registers<Self>,
        memory: &mut [u8],
    ) -> (out: Result<(), Error>)
        ensures
            final(xregs)@ == old(xregs)@,
            final(memory)@ == old(memory)@,
            file_meets(
                out,
                old(fregs)@,
                final(fregs)@,
                Self::fload_spec(instruction, *old(xregs), *old(fregs), old(memory)@),
            ),
    {
        if instruction.id() != FLW {
            return Err(Error::InvalidOpCode);
        }
        let base: u64 = ZeroOrRegister::from_u5(instruction.rs1).fetch(xregs);
        let addr: usize = match address64(base, instruction.imm) {
            Some(addr) => addr,
            None => {
                assert(memory@.len() == memory.len());
                return Err(Error::InvalidOpCode);
            },
        };
        let value: u64 = match u64::flw(memory, addr) {
            Ok(value) => value,
            Err(e) => {
                return Err(e);
            },
        };
        match ZeroOrRegister::from_u5(instruction.rd) {
            ZeroOrRegister::Zero => Err(Error::InvalidOpCode),
            ZeroOrRegister::Register(reg) => {
                *fregs.get_mut(reg) = value;
                Ok(())
            },
        }
    }
}

impl Fstore for u64 {
    open spec fn fstore_spec(
        instruction: S,
        xregs: Registers<Self>,
        fregs: Registers<Self>,
        memory: Seq<u8>,
    ) -> Result<Seq<u8>, Error> {
        let addr = xregs@[instruction.rs1@ as int].addi_spec(instruction.imm) as nat;
        if instruction.id_spec() == FSW {
            u64::fsw_spec(fregs@[instruction.rs2@ as int], memory, addr)
        } else {
            Err(Error::InvalidOpCode)
        }
    }

    fn fstore(
        instruction: S,
        xregs: &mut Registers<Self>,
        fregs: &mut Registers<Self>,
        memory: &mut [u8],
    ) -> (out: Result<(), Error>)
        ensures
            final(xregs)@ == old(xregs)@,
            final(fregs)@ == old(fregs)@,
            store_meets(
                out,
                old(memory)@,
                final(memory)@,
                Self::fstore_spec(instruction, *old(xregs), *old(fregs), old(memory)@),
            ),
    {
        if instruction.id() != FSW {
            return Err(Error::InvalidOpCode);
        }
        let base: u64 = ZeroOrRegister::from_u5(instruction.rs1).fetch(xregs);
        let value: u64 = ZeroOrRegister::from_u5(instruction.rs2).fetch(fregs);
        let addr: usize = match address64(base, instruction.imm) {
            Some(addr) => addr,
            None => {
                assert(memory@.len() == memory.len());
                return Err(Error::InvalidOpCode);
            },
        };
        u64::fsw(value, memory, addr)
    }
}

/// The request of an instruction of the fused multiply-add family: the three
/// operands are the low 32 bits of the three sources. The instruction fails
/// where its destination is the register 0.
pub open spec fn fused_request<T: As<u32>>(op: FloatOp, instruction: R4, regs: Seq<T>) -> Result<
    FloatRequest,
    Error,
> {
    if instruction.rd@ == 0 {
        Err(Error::InvalidOpCode)
    } else {
        Ok(
            FloatRequest {
                op,
                a: regs[instruction.rs1@ as int].cast_spec(),
                b: regs[instruction.rs2@ as int].cast_spec(),
                c: regs[instruction.rs3@ as int].cast_spec(),
                rd: Register::of(instruction.rd@),
            },
        )
    }
}

/// Reads the operands of an instruction of the fused multiply-add family.
fn fused<T: Copy + Zero
    + As<u32>>(op: FloatOp, instruction: R4, regs: &Registers<T>) -> (out: Result<
    FloatRequest,
    Error,
>)
    ensures
        out == fused_request::<T>(op, instruction, regs@),
{
    let a: u32 = As::<u32>::cast(ZeroOrRegister::from_u5(instruction.rs1).fetch(regs));
    let b: u32 = As::<u32>::cast(ZeroOrRegister::from_u5(instruction.rs2).fetch(regs));
    let c: u32 = As::<u32>::cast(ZeroOrRegister::from_u5(instruction.rs3).fetch(regs));
    match ZeroOrRegister::from_u5(instruction.rd) {
        ZeroOrRegister::Zero => Err(Error::InvalidOpCode),
        ZeroOrRegister::Register(rd) => {
            Ok(FloatRequest { op, a, b, c, rd })
        },
    }
}

/// Fused multiply-add: `a * b + c`.
///
/// The operation rounds, so it is handed out: the request names it, its three
/// operands and the destination. The instruction fails where its destination
/// is the register 0. The registers do not change.
pub trait FmaddS: Zero + Copy + As<u32> {
    fn fmadd(instruction: R4, regs: &Registers<Self>) -> (out: Result<FloatRequest, Error>)
        ensures
            out == fused_request::<Self>(FloatOp::Fmadd, instruction, regs@),
    ;
}

impl<T: Copy + Zero + As<u32>> FmaddS for T {
    fn fmadd(instruction: R4, regs: &Registers<Self>) -> (out: Result<FloatRequest, Error>) {
        fused::<T>(FloatOp::Fmadd, instruction, regs)
    }
}

/// Multiply-subtract: `a * b - c`.
///
/// The operation rounds, so it is handed out: the request names it, its three
/// operands and the destination. The instruction fails where its destination
/// is the register 0. The registers do not change.
pub trait FmsubS: Zero + Copy + As<u32> {
    fn fmsub(instruction: R4, regs: &Registers<Self>) -> (out: Result<FloatRequest, Error>)
        ensures
            out == fused_request::<Self>(FloatOp::Fmsub, instruction, regs@),
    ;
}

impl<T: Copy + Zero + As<u32>> FmsubS for T {
    fn fmsub(instruction: R4, regs: &Registers<Self>) -> (out: Result<FloatRequest, Error>) {
        fused::<T>(FloatOp::Fmsub, instruction, regs)
    }
}

/// Negated multiply-subtract: `-(a * b) + c`.
///
/// The operation rounds, so it is handed out: the request names it, its three
/// operands and the destination. The instruction fails where its destination
/// is the register 0. The registers do not change.
pub trait FnmsubS: Zero + Copy + As<u32> {
    fn fnmsub(instruction: R4, regs: &Registers<Self>) -> (out: Result<FloatRequest, Error>)
        ensures
            out == fused_request::<Self>(FloatOp::Fnmsub, instruction, regs@),
    ;
}

impl<T: Copy + Zero + As<u32>> FnmsubS for T {
    fn fnmsub(instruction: R4, regs: &Registers<Self>) -> (out: Result<FloatRequest, Error>) {
        fused::<T>(FloatOp::Fnmsub, instruction, regs)
    }
}

/// Negated multiply-add: `-(a * b) - c`.
///
/// The operation rounds, so it is handed out: the request names it, its three
/// operands and the destination. The instruction fails where its destination
/// is the register 0. The registers do not change.
pub trait FnmaddS: Zero + Copy + As<u32> {
    fn fnmadd(instruction: R4, regs: &Registers<Self>) -> (out: Result<FloatRequest, Error>)
        ensures
            out == fused_request::<Self>(FloatOp::Fnmadd, instruction, regs@),
    ;
}

impl<T: Copy + Zero + As<u32>> FnmaddS for T {
    fn fnmadd(instruction: R4, regs: &Registers<Self>) -> (out: Result<FloatRequest, Error>) {
        fused::<T>(FloatOp::Fnmadd, instruction, regs)
    }
}

impl MathW for u32 {
    /// A word of 32 bits has no operations on its low 32 bits: every
    /// instruction of the group fails.
    open spec fn mathw_spec(instruction: R, regs: Registers<Self>) -> Result<Seq<Self>, Error> {
        Err(Error::InvalidOpCode)
    }

    fn mathw(instruction: R, regs: &mut Registers<Self>) -> (out: Result<(), Error>)
        ensures
            file_meets(out, old(regs)@, final(regs)@, Self::mathw_spec(instruction, *old(regs))),
    {
        Err(Error::InvalidOpCode)
    }
}

impl MathIW for u32 {
    /// A word of 32 bits has no operations on its low 32 bits: every
    /// instruction of the group fails.
    open spec fn mathiw_spec(instruction: I, regs: Registers<Self>) -> Result<Seq<Self>, Error> {
        Err(Error::InvalidOpCode)
    }

    fn mathiw(instruction: I, regs: &mut Registers<Self>) -> (out: Result<(), Error>)
        ensures
            file_meets(out, old(regs)@, final(regs)@, Self::mathiw_spec(instruction, *old(regs))),
    {
        Err(Error::InvalidOpCode)
    }
}

impl ShiftIW for u32 {
    /// A word of 32 bits has no operations on its low 32 bits: every
    /// instruction of the group fails.
    open spec fn shiftiw_spec(instruction: Shift, regs: Registers<Self>) -> Result<Seq<Self>, Error> {
        Err(Error::InvalidOpCode)
    }

    fn shiftiw(instruction: Shift, regs: &mut Registers<Self>) -> (out: Result<(), Error>)
        ensures
            file_meets(out, old(regs)@, final(regs)@, Self::shiftiw_spec(instruction, *old(regs))),
    {
        Err(Error::InvalidOpCode)
    }
}

} // verus!
