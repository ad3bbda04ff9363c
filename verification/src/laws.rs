use crate::decode::{B, I, J, R};
use crate::error::Error;
use crate::instructions::{Branch, Csr, Jal, Jalr};
use crate::mem::{
    in_bounds, le16, le32, le64, le_bytes16, le_bytes32, le_bytes64, read_bytes, write_bytes,
};
use crate::num::{signed32, wrap32, wrap64};
use crate::ops::csr::BaseCsr;
use crate::ops::math::sext32;
use crate::ops::mem::{Lbu, Ld, Lhu, Lw, Lwu, Sb, Sd, Sh, Sw};
use crate::instruction_ids::{CSRRC, CSRRCI, CSRRS, CSRRSI, CSRRW, CSRRWI};
use crate::registers::{csr_read_only, CsrRegisters, RegFile, Registers, Zero};
use crate::step_effect;
use vstd::prelude::*;

verus! {

/// Register 0 of a register file reads as zero, whatever was done to the
/// file.
pub proof fn lemma_register_zero<T: Zero + Copy>(regs: Registers<T>)
    ensures
        regs@.len() == 32,
        regs@[0] == T::zero_spec(),
{
    regs.lemma_view();
}

/// Bytes that were written to memory are the bytes that are read back from
/// the same place.
pub proof fn lemma_write_then_read(memory: Seq<u8>, addr: nat, bytes: Seq<u8>)
    requires
        in_bounds(memory.len(), addr, bytes.len()),
    ensures
        write_bytes(memory, addr as int, bytes).len() == memory.len(),
        read_bytes(write_bytes(memory, addr as int, bytes), addr as int, bytes.len()) == bytes,
{
    assert(read_bytes(write_bytes(memory, addr as int, bytes), addr as int, bytes.len())
        =~= bytes);
}

/// A write leaves every byte outside its range as it was.
pub proof fn lemma_write_elsewhere(memory: Seq<u8>, addr: nat, bytes: Seq<u8>, other: int)
    requires
        in_bounds(memory.len(), addr, bytes.len()),
        0 <= other < memory.len(),
        other < addr || other >= addr + bytes.len(),
    ensures
        write_bytes(memory, addr as int, bytes)[other] == memory[other],
{
}

/// The little-endian bytes of a number of 16 bits hold that number.
pub proof fn lemma_little_endian16(value: u16)
    ensures
        le_bytes16(value).len() == 2,
        le16(le_bytes16(value)) == value,
{
}

/// The little-endian bytes of a number of 32 bits hold that number.
pub proof fn lemma_little_endian32(value: u32)
    ensures
        le_bytes32(value).len() == 4,
        le32(le_bytes32(value)) == value,
{
    let q1 = value as int / 0x100;
    let q2 = q1 / 0x100;
    let q3 = q2 / 0x100;
    assert(value as int / 0x1_0000 == q2);
    assert(value as int / 0x100_0000 == q3);
    assert(value == value as int % 0x100 + 0x100 * (q1 % 0x100) + 0x1_0000 * (q2 % 0x100)
        + 0x100_0000 * q3);
}

/// The little-endian bytes of a number of 64 bits hold that number.
pub proof fn lemma_little_endian64(value: u64)
    ensures
        le_bytes64(value).len() == 8,
        le64(le_bytes64(value)) == value,
{
    let q1 = value as int / 0x100;
    let q2 = q1 / 0x100;
    let q3 = q2 / 0x100;
    let q4 = q3 / 0x100;
    let q5 = q4 / 0x100;
    let q6 = q5 / 0x100;
    let q7 = q6 / 0x100;
    assert(value as int / 0x1_0000 == q2);
    assert(value as int / 0x100_0000 == q3);
    assert(value as int / 0x1_0000_0000 == q4);
    assert(value as int / 0x100_0000_0000 == q5);
    assert(value as int / 0x1_0000_0000_0000 == q6);
    assert(value as int / 0x100_0000_0000_0000 == q7);
    assert(value as int == value as int % 0x100 + 0x100 * q1);
    assert(q1 == q1 % 0x100 + 0x100 * q2);
    assert(q2 == q2 % 0x100 + 0x100 * q3);
    assert(q3 == q3 % 0x100 + 0x100 * q4);
    assert(q4 == q4 % 0x100 + 0x100 * q5);
    assert(q5 == q5 % 0x100 + 0x100 * q6);
    assert(q6 == q6 % 0x100 + 0x100 * q7);
    assert(0 <= q7 < 0x100);
}

/// In a word of 32 bits, a store that succeeds is followed by a load of the
/// same width from the same address that yields the bytes that were stored:
/// the low byte, the low two bytes, or the word.
pub proof fn lemma_store_then_load32(value: u32, memory: Seq<u8>, addr: nat)
    ensures
        u32::sb_spec(value, memory, addr) matches Ok(after) ==> u32::lbu_spec(after, addr) == Ok::<
            u32,
            Error,
        >((value % 0x100) as u32),
        u32::sh_spec(value, memory, addr) matches Ok(after) ==> u32::lhu_spec(after, addr) == Ok::<
            u32,
            Error,
        >((value % 0x1_0000) as u32),
        u32::sw_spec(value, memory, addr) matches Ok(after) ==> u32::lw_spec(after, addr) == Ok::<
            u32,
            Error,
        >(value),
{
    lemma_little_endian16((value % 0x1_0000) as u16);
    lemma_little_endian32(value);
    if in_bounds(memory.len(), addr, 1) {
        lemma_write_then_read(memory, addr, seq![(value % 0x100) as u8]);
    }
    if in_bounds(memory.len(), addr, 2) {
        lemma_write_then_read(memory, addr, le_bytes16((value % 0x1_0000) as u16));
    }
    if in_bounds(memory.len(), addr, 4) {
        lemma_write_then_read(memory, addr, le_bytes32(value));
    }
}

/// In a word of 64 bits, a store that succeeds is followed by a zero-extending
/// load of the same width from the same address that yields the bytes that
/// were stored: the low byte, the low two bytes, the low four bytes, or the
/// word.
pub proof fn lemma_store_then_load64(value: u64, memory: Seq<u8>, addr: nat)
    ensures
        u64::sb_spec(value, memory, addr) matches Ok(after) ==> u64::lbu_spec(after, addr) == Ok::<
            u64,
            Error,
        >((value % 0x100) as u64),
        u64::sh_spec(value, memory, addr) matches Ok(after) ==> u64::lhu_spec(after, addr) == Ok::<
            u64,
            Error,
        >((value % 0x1_0000) as u64),
        u64::sw_spec(value, memory, addr) matches Ok(after) ==> u64::lwu_spec(after, addr) == Ok::<
            u64,
            Error,
        >((value % 0x1_0000_0000) as u64),
        u64::sd_spec(value, memory, addr) matches Ok(after) ==> u64::ld_spec(after, addr) == Ok::<
            u64,
            Error,
        >(value),
{
    lemma_little_endian16((value % 0x1_0000) as u16);
    lemma_little_endian32((value % 0x1_0000_0000) as u32);
    lemma_little_endian64(value);
    if in_bounds(memory.len(), addr, 1) {
        lemma_write_then_read(memory, addr, seq![(value % 0x100) as u8]);
    }
    if in_bounds(memory.len(), addr, 2) {
        lemma_write_then_read(memory, addr, le_bytes16((value % 0x1_0000) as u16));
    }
    if in_bounds(memory.len(), addr, 4) {
        lemma_write_then_read(memory, addr, le_bytes32((value % 0x1_0000_0000) as u32));
    }
    if in_bounds(memory.len(), addr, 8) {
        lemma_write_then_read(memory, addr, le_bytes64(value));
    }
}

/// The immediate of 12 bits, sign-extended where it is used, is the number
/// that sign extension gives when the word is decoded: the upper 12 bits of
/// the word, read as a signed number.
pub proof fn lemma_sign_extension_at_decode(word: u32)
    ensures
        I::of(word).imm.signed() == signed32(word) / 0x10_0000,
        -2048 <= I::of(word).imm.signed() < 2048,
{
    I::lemma_of(word);
}

/// Sign extension done twice is sign extension done once: a signed number of
/// 32 bits, extended to 64 bits, is the number extended to 64 bits directly.
pub proof fn lemma_sign_extension_composes(value: int)
    requires
        -0x8000_0000 <= value < 0x8000_0000,
    ensures
        signed32(wrap32(value)) == value,
        sext32(wrap32(value)) == wrap64(value),
{
}

/// The offset of a branch and the offset of a jump are even: their lowest bit
/// is zero.
pub proof fn lemma_offsets_even(word: u32)
    ensures
        B::of(word).imm@ % 2 == 0,
        B::of(word).imm.signed() % 2 == 0,
        J::of(word).imm@ % 2 == 0,
        J::of(word).imm.signed() % 2 == 0,
{
    B::lemma_of(word);
    J::lemma_of(word);
}

/// A branch in a word of 32 bits that is not taken leads to the program
/// counter plus four, and one that is taken to the program counter plus the
/// signed offset.
pub proof fn lemma_branch_target32(instruction: B, regs: Registers<u32>, pc: u32)
    ensures
        match crate::instructions::branch_taken::<u32>(
            instruction.id_spec(),
            regs@[instruction.rs1@ as int],
            regs@[instruction.rs2@ as int],
        ) {
            Some(true) => u32::branch_spec(instruction, regs, pc) == Ok::<u32, Error>(
                wrap32(pc + instruction.imm.signed()),
            ),
            Some(false) => u32::branch_spec(instruction, regs, pc) == Ok::<u32, Error>(
                wrap32(pc + 4),
            ),
            None => u32::branch_spec(instruction, regs, pc).is_err(),
        },
{
}

/// A branch in a word of 64 bits that is not taken leads to the program
/// counter plus four, and one that is taken to the program counter plus the
/// signed offset.
pub proof fn lemma_branch_target64(instruction: B, regs: Registers<u64>, pc: u64)
    ensures
        match crate::instructions::branch_taken::<u64>(
            instruction.id_spec(),
            regs@[instruction.rs1@ as int],
            regs@[instruction.rs2@ as int],
        ) {
            Some(true) => u64::branch_spec(instruction, regs, pc) == Ok::<u64, Error>(
                wrap64(pc + instruction.imm.signed()),
            ),
            Some(false) => u64::branch_spec(instruction, regs, pc) == Ok::<u64, Error>(
                wrap64(pc + 4),
            ),
            None => u64::branch_spec(instruction, regs, pc).is_err(),
        },
{
}

/// What a jump writes to its destination is the program counter plus four,
/// whatever the target of the jump.
pub proof fn lemma_link_is_next(pc32: u32, pc64: u64)
    ensures
        <u32 as Jal>::link_spec(pc32) == wrap32(pc32 + 4),
        <u32 as Jalr>::return_spec(pc32) == wrap32(pc32 + 4),
        <u64 as Jal>::link_spec(pc64) == wrap64(pc64 + 4),
        <u64 as Jalr>::return_spec(pc64) == wrap64(pc64 + 4),
{
}

/// A set or clear of a control and status register whose source is the zero
/// register or the immediate zero, and a write whose source is the zero
/// register, read the register into the destination and leave every control
/// and status register as it was. They succeed at a read-only address too.
pub proof fn lemma_csr_zero_source<T: Copy + Zero + BaseCsr>(
    instruction: I,
    regs: Registers<T>,
    csrs: CsrRegisters<T>,
)
    requires
        instruction.rs1@ == 0,
        instruction.rd@ != 0,
        instruction.id_spec() == CSRRW || instruction.id_spec() == CSRRS || instruction.id_spec()
            == CSRRC || instruction.id_spec() == CSRRSI || instruction.id_spec() == CSRRCI,
    ensures
        T::csr_spec(instruction, regs, csrs) == Ok::<(Seq<T>, Seq<T>), Error>(
            (regs@.update(instruction.rd@ as int, csrs@[instruction.imm@ as int]), csrs@),
        ),
{
}

/// The write of an immediate to a control and status register always writes,
/// also the immediate zero: the register receives the immediate, and the
/// instruction fails where the register is read-only.
pub proof fn lemma_csr_write_immediate<T: Copy + Zero + BaseCsr>(
    instruction: I,
    regs: Registers<T>,
    csrs: CsrRegisters<T>,
)
    requires
        instruction.id_spec() == CSRRWI,
        instruction.rd@ != 0,
    ensures
        csr_read_only(instruction.imm@) ==> T::csr_spec(instruction, regs, csrs).is_err(),
        !csr_read_only(instruction.imm@) ==> T::csr_spec(instruction, regs, csrs) == Ok::<
            (Seq<T>, Seq<T>),
            Error,
        >(
            (
                regs@.update(instruction.rd@ as int, csrs@[instruction.imm@ as int]),
                csrs@.update(
                    instruction.imm@ as int,
                    T::csrrwi_spec(instruction.rs1, csrs@[instruction.imm@ as int]),
                ),
            ),
        ),
{
}

/// After every instruction that succeeds in a word of 32 bits, register 0
/// of the integer registers reads as zero.
pub proof fn lemma_step_keeps_zero32(encoded: u32, regfile: RegFile<u32>, pc: u32, memory: Seq<u8>)
    ensures
        step_effect::<u32>(encoded, regfile, pc, memory) matches Ok(effect) ==> effect.xregs.len()
            == 32 && effect.xregs[0] == 0,
{
    regfile.xregs.lemma_view();
    crate::decode::R::lemma_of(encoded);
    crate::decode::I::lemma_of(encoded);
    crate::decode::U::lemma_of(encoded);
    crate::decode::J::lemma_of(encoded);
    crate::decode::Shift::lemma_of(encoded);
}

/// A jump in a word of 32 bits whose destination is not register 0 writes
/// the program counter plus four to its destination, whatever its target.
pub proof fn lemma_jump_links32(encoded: u32, regfile: RegFile<u32>, pc: u32, memory: Seq<u8>)
    requires
        crate::bit_field(encoded, 0, 6) == 0b1101111 || crate::bit_field(encoded, 0, 6)
            == 0b1100111,
        crate::bit_field(encoded, 7, 11) != 0,
    ensures
        step_effect::<u32>(encoded, regfile, pc, memory) matches Ok(effect)
            && effect.xregs[crate::bit_field(encoded, 7, 11) as int] == wrap32(pc + 4),
{
    regfile.xregs.lemma_view();
    crate::decode::I::lemma_of(encoded);
    crate::decode::J::lemma_of(encoded);
}

/// After every instruction that succeeds in a word of 64 bits, register 0
/// of the integer registers reads as zero.
pub proof fn lemma_step_keeps_zero64(encoded: u32, regfile: RegFile<u64>, pc: u64, memory: Seq<u8>)
    ensures
        step_effect::<u64>(encoded, regfile, pc, memory) matches Ok(effect) ==> effect.xregs.len()
            == 32 && effect.xregs[0] == 0,
{
    regfile.xregs.lemma_view();
    crate::decode::R::lemma_of(encoded);
    crate::decode::I::lemma_of(encoded);
    crate::decode::U::lemma_of(encoded);
    crate::decode::J::lemma_of(encoded);
    crate::decode::Shift::lemma_of(encoded);
}

/// A jump in a word of 64 bits whose destination is not register 0 writes
/// the program counter plus four to its destination, whatever its target.
pub proof fn lemma_jump_links64(encoded: u32, regfile: RegFile<u64>, pc: u64, memory: Seq<u8>)
    requires
        crate::bit_field(encoded, 0, 6) == 0b1101111 || crate::bit_field(encoded, 0, 6)
            == 0b1100111,
        crate::bit_field(encoded, 7, 11) != 0,
    ensures
        step_effect::<u64>(encoded, regfile, pc, memory) matches Ok(effect)
            && effect.xregs[crate::bit_field(encoded, 7, 11) as int] == wrap64(pc + 4),
{
    regfile.xregs.lemma_view();
    crate::decode::I::lemma_of(encoded);
    crate::decode::J::lemma_of(encoded);
}

/// The key of a single-precision operation tells which fields made it: a key
/// below 128 is the `funct7` of arithmetic, a key from 128 to 1023 is
/// `funct7` above `funct3`, and a key from 3072 to 4094 is `funct7` of a
/// conversion above `rs2`. So no two operations share a key.
pub proof fn lemma_float_key(word: u32)
    ensures
        ({
            let r = R::of(word);
            let key = r.fid_spec();
            &&& key < 128 ==> key == r.funct7@ && (key == 0 || key == 4 || key == 8 || key == 12
                || key == 44)
            &&& 128 <= key < 1024 ==> key == r.funct7@ * 8 + r.funct3@ && r.funct7@ >= 16
            &&& 3072 <= key < 4095 ==> key == r.funct7@ * 32 + r.rs2@ && (r.funct7@ == 96
                || r.funct7@ == 104)
            &&& key < 128 || 128 <= key < 1024 || 3072 <= key <= 4095
        }),
{
    R::lemma_of(word);
}

} // verus!
