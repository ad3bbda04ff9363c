//! An instruction-level interpreter for the 32-bit and 64-bit RISC-V integer
//! instruction set, with multiplication and division, control and status
//! registers, and single-precision floating point.
//!
//! The machine is a register file, a program counter and a flat memory.
//! [`step`] executes one instruction word on it, and [`fetch_and_step`] reads
//! the word at the program counter first. Every operation has a contract
//! over a mathematical model of the machine: [`step_effect`] says what an
//! instruction word does, and the modules say what each group of instructions
//! and each single operation computes.
//!
//! Arithmetic on single-precision numbers that rounds is not done here. An
//! instruction that needs it retires with a pending request, which names the
//! operation and its operands; the caller computes the result and writes it
//! with `FloatRequest::complete`.

pub mod decode;
pub mod error;
pub mod instruction_ids;
pub mod instructions;
pub mod laws;
pub mod mem;
pub mod num;
pub mod ops;
pub mod registers;

use crate::decode::{well_decoded, Shift, B, I, J, R, R4, S, U};
use crate::error::Error;
use crate::instructions::{
    fused_request, Auipc, BaseInstruction, Branch, Csr, Fload, FloatS, FmaddS, FmsubS, FnmaddS,
    FnmsubS, Fstore, Jal, Jalr, Load, Lui, Math, MathI, MathIW, MathW, Outcome, ShiftI, ShiftIW,
    Store,
};
use crate::mem::{in_bounds, le32, read, read_bytes, U32};
use crate::ops::float::{FloatOp, FloatRequest};
use crate::registers::{ProgramCounter, RegFile, Registers, Zero};
use vstd::prelude::*;

verus! {

/// Two to the power of `n`, for `n` from 0 to 64.
#[verifier::inline]
pub open spec fn two_to(n: nat) -> nat
    recommends
        n <= 64,
{
    if n == 0 {
        0x1
    } else if n == 1 {
        0x2
    } else if n == 2 {
        0x4
    } else if n == 3 {
        0x8
    } else if n == 4 {
        0x10
    } else if n == 5 {
        0x20
    } else if n == 6 {
        0x40
    } else if n == 7 {
        0x80
    } else if n == 8 {
        0x100
    } else if n == 9 {
        0x200
    } else if n == 10 {
        0x400
    } else if n == 11 {
        0x800
    } else if n == 12 {
        0x1000
    } else if n == 13 {
        0x2000
    } else if n == 14 {
        0x4000
    } else if n == 15 {
        0x8000
    } else if n == 16 {
        0x1_0000
    } else if n == 17 {
        0x2_0000
    } else if n == 18 {
        0x4_0000
    } else if n == 19 {
        0x8_0000
    } else if n == 20 {
        0x10_0000
    } else if n == 21 {
        0x20_0000
    } else if n == 22 {
        0x40_0000
    } else if n == 23 {
        0x80_0000
    } else if n == 24 {
        0x100_0000
    } else if n == 25 {
        0x200_0000
    } else if n == 26 {
        0x400_0000
    } else if n == 27 {
        0x800_0000
    } else if n == 28 {
        0x1000_0000
    } else if n == 29 {
        0x2000_0000
    } else if n == 30 {
        0x4000_0000
    } else if n == 31 {
        0x8000_0000
    } else if n == 32 {
        0x1_0000_0000
    } else if n == 33 {
        0x2_0000_0000
    } else if n == 34 {
        0x4_0000_0000
    } else if n == 35 {
        0x8_0000_0000
    } else if n == 36 {
        0x10_0000_0000
    } else if n == 37 {
        0x20_0000_0000
    } else if n == 38 {
        0x40_0000_0000
    } else if n == 39 {
        0x80_0000_0000
    } else if n == 40 {
        0x100_0000_0000
    } else if n == 41 {
        0x200_0000_0000
    } else if n == 42 {
        0x400_0000_0000
    } else if n == 43 {
        0x800_0000_0000
    } else if n == 44 {
        0x1000_0000_0000
    } else if n == 45 {
        0x2000_0000_0000
    } else if n == 46 {
        0x4000_0000_0000
    } else if n == 47 {
        0x8000_0000_0000
    } else if n == 48 {
        0x1_0000_0000_0000
    } else if n == 49 {
        0x2_0000_0000_0000
    } else if n == 50 {
        0x4_0000_0000_0000
    } else if n == 51 {
        0x8_0000_0000_0000
    } else if n == 52 {
        0x10_0000_0000_0000
    } else if n == 53 {
        0x20_0000_0000_0000
    } else if n == 54 {
        0x40_0000_0000_0000
    } else if n == 55 {
        0x80_0000_0000_0000
    } else if n == 56 {
        0x100_0000_0000_0000
    } else if n == 57 {
        0x200_0000_0000_0000
    } else if n == 58 {
        0x400_0000_0000_0000
    } else if n == 59 {
        0x800_0000_0000_0000
    } else if n == 60 {
        0x1000_0000_0000_0000
    } else if n == 61 {
        0x2000_0000_0000_0000
    } else if n == 62 {
        0x4000_0000_0000_0000
    } else if n == 63 {
        0x8000_0000_0000_0000
    } else {
        0x1_0000_0000_0000_0000
    }
}

/// The unsigned integer formed by the bits `lo..=hi` of `src`: `src` divided
/// by two to the power of `lo`, modulo two to the power of the width.
#[verifier::inline]
pub open spec fn bit_field(src: u32, lo: nat, hi: nat) -> nat
    recommends
        lo <= hi < 32,
{
    (src as nat / two_to(lo)) % two_to((hi - lo + 1) as nat)
}

/// Extracts the inclusive bit range `lo..=hi` of `src`.
pub fn bit_extract(src: u32, lo: u32, hi: u32) -> (out: u32)
    requires
        lo <= hi < 32,
    ensures
        out == bit_field(src, lo as nat, hi as nat),
{
    let width: u32 = hi - lo + 1;
    let shifted: u32 = src >> lo;
    proof {
        vstd::arithmetic::power2::lemma2_to64();
        vstd::bits::lemma_u32_shr_is_div(src, lo);
        assert(two_to(lo as nat) == vstd::arithmetic::power2::pow2(lo as nat));
        assert(two_to(width as nat) == vstd::arithmetic::power2::pow2(width as nat));
    }
    if width == 32 {
        shifted
    } else {
        let one: u32 = 1;
        proof {
            vstd::bits::lemma_u32_shl_is_mul(one, width);
            vstd::bits::lemma_u32_low_bits_mask_is_mod(shifted, width as nat);
        }
        let mask: u32 = (one << width) - 1;
        shifted & mask
    }
}

/// A word type on which the whole instruction set is defined.
pub trait Word:
    BaseInstruction
    + MathW
    + MathIW
    + ShiftIW
    + Csr
    + FloatS
    + Fload
    + Fstore
    + FmaddS
    + FmsubS
    + FnmsubS
    + FnmaddS
    + ProgramCounter
{
}

impl Word for u32 {
}

impl Word for u64 {
}

/// The state of the machine after an instruction, and what became of the
/// instruction.
pub struct Effect<T> {
    pub xregs: Seq<T>,
    pub fregs: Seq<T>,
    pub csrs: Seq<T>,
    pub pc: T,
    pub memory: Seq<u8>,
    pub outcome: Outcome,
}

/// The effect of an instruction that wrote the integer registers, or failed.
/// The program counter advances.
pub open spec fn integer_effect<T: Word>(
    regfile: RegFile<T>,
    pc: T,
    memory: Seq<u8>,
    result: Result<Seq<T>, Error>,
) -> Result<Effect<T>, Error> {
    match result {
        Ok(file) => Ok(
            Effect {
                xregs: file,
                fregs: regfile.fregs@,
                csrs: regfile.csrs@,
                pc: pc.incremented(),
                memory,
                outcome: Outcome::Retired,
            },
        ),
        Err(e) => Err(e),
    }
}

/// The effect of an instruction that wrote the floating-point registers, or
/// failed. The program counter advances.
pub open spec fn float_effect<T: Word>(
    regfile: RegFile<T>,
    pc: T,
    memory: Seq<u8>,
    result: Result<Seq<T>, Error>,
) -> Result<Effect<T>, Error> {
    match result {
        Ok(file) => Ok(
            Effect {
                xregs: regfile.xregs@,
                fregs: file,
                csrs: regfile.csrs@,
                pc: pc.incremented(),
                memory,
                outcome: Outcome::Retired,
            },
        ),
        Err(e) => Err(e),
    }
}

/// The effect of an instruction that wrote the memory, or failed. The
/// program counter advances.
pub open spec fn memory_effect<T: Word>(regfile: RegFile<T>, pc: T, result: Result<Seq<u8>, Error>) -> Result<
    Effect<T>,
    Error,
> {
    match result {
        Ok(memory) => Ok(
            Effect {
                xregs: regfile.xregs@,
                fregs: regfile.fregs@,
                csrs: regfile.csrs@,
                pc: pc.incremented(),
                memory,
                outcome: Outcome::Retired,
            },
        ),
        Err(e) => Err(e),
    }
}

/// The effect of an instruction that hands out a rounding operation, or
/// failed. The program counter advances; the result is still to be written.
pub open spec fn pending_effect<T: Word>(
    regfile: RegFile<T>,
    pc: T,
    memory: Seq<u8>,
    result: Result<FloatRequest, Error>,
) -> Result<Effect<T>, Error> {
    match result {
        Ok(request) => Ok(
            Effect {
                xregs: regfile.xregs@,
                fregs: regfile.fregs@,
                csrs: regfile.csrs@,
                pc: pc.incremented(),
                memory,
                outcome: Outcome::Pending(request),
            },
        ),
        Err(e) => Err(e),
    }
}

/// What the instruction `encoded` does to a machine with the registers
/// `regfile`, the program counter `pc` and the memory `memory`.
///
/// The low seven bits of the word select the group of the instruction. An
/// instruction that owns the program counter (a jump or a branch) sets it;
/// after every other instruction that succeeds, the program counter advances
/// by four. Memory fences, system instructions other than those on control
/// and status registers, and words whose low seven bits select no group fail.
pub open spec fn step_effect<T: Word>(encoded: u32, regfile: RegFile<T>, pc: T, memory: Seq<u8>) -> Result<
    Effect<T>,
    Error,
> {
    let opcode = bit_field(encoded, 0, 6);
    let funct3 = bit_field(encoded, 12, 14);
    if opcode == 0b0110111 {
        integer_effect(regfile, pc, memory, T::lui_spec(U::of(encoded), regfile.xregs))
    } else if opcode == 0b0010111 {
        integer_effect(regfile, pc, memory, T::auipc_spec(U::of(encoded), regfile.xregs, pc))
    } else if opcode == 0b1101111 {
        Ok(
            Effect {
                xregs: if J::of(encoded).rd@ == 0 {
                    regfile.xregs@
                } else {
                    regfile.xregs@.update(J::of(encoded).rd@ as int, T::link_spec(pc))
                },
                fregs: regfile.fregs@,
                csrs: regfile.csrs@,
                pc: T::jal_target(J::of(encoded), pc),
                memory,
                outcome: Outcome::Retired,
            },
        )
    } else if opcode == 0b1100111 {
        Ok(
            Effect {
                xregs: if I::of(encoded).rd@ == 0 {
                    regfile.xregs@
                } else {
                    regfile.xregs@.update(I::of(encoded).rd@ as int, T::return_spec(pc))
                },
                fregs: regfile.fregs@,
                csrs: regfile.csrs@,
                pc: T::jalr_target(I::of(encoded), regfile.xregs),
                memory,
                outcome: Outcome::Retired,
            },
        )
    } else if opcode == 0b1100011 {
        match T::branch_spec(B::of(encoded), regfile.xregs, pc) {
            Ok(next) => Ok(
                Effect {
                    xregs: regfile.xregs@,
                    fregs: regfile.fregs@,
                    csrs: regfile.csrs@,
                    pc: next,
                    memory,
                    outcome: Outcome::Retired,
                },
            ),
            Err(e) => Err(e),
        }
    } else if opcode == 0b0000011 {
        integer_effect(regfile, pc, memory, T::load_spec(I::of(encoded), regfile.xregs, memory))
    } else if opcode == 0b0100011 {
        memory_effect(regfile, pc, T::store_spec(S::of(encoded), regfile.xregs, memory))
    } else if opcode == 0b0010011 {
        if funct3 == 0b001 || funct3 == 0b101 {
            integer_effect(regfile, pc, memory, T::shifti_spec(Shift::of(encoded), regfile.xregs))
        } else {
            integer_effect(regfile, pc, memory, T::mathi_spec(I::of(encoded), regfile.xregs))
        }
    } else if opcode == 0b0110011 {
        integer_effect(regfile, pc, memory, T::math_spec(R::of(encoded), regfile.xregs))
    } else if opcode == 0b0111011 {
        integer_effect(regfile, pc, memory, T::mathw_spec(R::of(encoded), regfile.xregs))
    } else if opcode == 0b0011011 {
        if funct3 == 0b000 {
            integer_effect(regfile, pc, memory, T::mathiw_spec(I::of(encoded), regfile.xregs))
        } else {
            integer_effect(regfile, pc, memory, T::shiftiw_spec(Shift::of(encoded), regfile.xregs))
        }
    } else if opcode == 0b1110011 {
        match T::csr_spec(I::of(encoded), regfile.xregs, regfile.csrs) {
            Ok((file, control)) => Ok(
                Effect {
                    xregs: file,
                    fregs: regfile.fregs@,
                    csrs: control,
                    pc: pc.incremented(),
                    memory,
                    outcome: Outcome::Retired,
                },
            ),
            Err(e) => Err(e),
        }
    } else if opcode == 0b1010011 {
        match T::floats_spec(R::of(encoded), regfile.fregs, regfile.xregs) {
            Ok((floats, integers, outcome)) => Ok(
                Effect {
                    xregs: integers,
                    fregs: floats,
                    csrs: regfile.csrs@,
                    pc: pc.incremented(),
                    memory,
                    outcome,
                },
            ),
            Err(e) => Err(e),
        }
    } else if opcode == 0b0000111 {
        float_effect(
            regfile,
            pc,
            memory,
            T::fload_spec(I::of(encoded), regfile.xregs, regfile.fregs, memory),
        )
    } else if opcode == 0b0100111 {
        memory_effect(
            regfile,
            pc,
            T::fstore_spec(S::of(encoded), regfile.xregs, regfile.fregs, memory),
        )
    } else if opcode == 0b1000011 {
        pending_effect(
            regfile,
            pc,
            memory,
            fused_request::<T>(FloatOp::Fmadd, R4::of(encoded), regfile.fregs@),
        )
    } else if opcode == 0b1000111 {
        pending_effect(
            regfile,
            pc,
            memory,
            fused_request::<T>(FloatOp::Fmsub, R4::of(encoded), regfile.fregs@),
        )
    } else if opcode == 0b1001011 {
        pending_effect(
            regfile,
            pc,
            memory,
            fused_request::<T>(FloatOp::Fnmsub, R4::of(encoded), regfile.fregs@),
        )
    } else if opcode == 0b1001111 {
        pending_effect(
            regfile,
            pc,
            memory,
            fused_request::<T>(FloatOp::Fnmadd, R4::of(encoded), regfile.fregs@),
        )
    } else {
        Err(Error::InvalidOpCode)
    }
}

/// A step returned `out` and left the machine in a state, as `expected`
/// says: on success the state is the expected one, on failure nothing has
/// changed.
pub open spec fn step_meets<T: Word>(
    out: Result<Outcome, Error>,
    regfile_before: RegFile<T>,
    pc_before: T,
    memory_before: Seq<u8>,
    regfile_after: RegFile<T>,
    pc_after: T,
    memory_after: Seq<u8>,
    expected: Result<Effect<T>, Error>,
) -> bool {
    match expected {
        Ok(effect) => {
            &&& out == Ok::<Outcome, Error>(effect.outcome)
            &&& regfile_after.xregs@ == effect.xregs
            &&& regfile_after.fregs@ == effect.fregs
            &&& regfile_after.csrs@ == effect.csrs
            &&& pc_after == effect.pc
            &&& memory_after == effect.memory
        },
        Err(e) => {
            &&& out == Err::<Outcome, Error>(e)
            &&& regfile_after.xregs@ == regfile_before.xregs@
            &&& regfile_after.fregs@ == regfile_before.fregs@
            &&& regfile_after.csrs@ == regfile_before.csrs@
            &&& pc_after == pc_before
            &&& memory_after == memory_before
        },
    }
}

/// One step of the machine on a given instruction word.
pub trait Step: Word {
    fn step(encoded: u32, regfile: &mut RegFile<Self>, pc: &mut Self, memory: &mut [u8]) -> (out:
        Result<Outcome, Error>)
        ensures
            step_meets(
                out,
                *old(regfile),
                *old(pc),
                old(memory)@,
                *final(regfile),
                *final(pc),
                final(memory)@,
                step_effect::<Self>(encoded, *old(regfile), *old(pc), old(memory)@),
            ),
            final(regfile).xregs@[0] == Self::zero_spec(),
            well_decoded(encoded),
    ;
}

impl<T: Word> Step for T {
    fn step(encoded: u32, regfile: &mut RegFile<Self>, pc: &mut Self, memory: &mut [u8]) -> (out:
        Result<Outcome, Error>)
        ensures
            step_meets(
                out,
                *old(regfile),
                *old(pc),
                old(memory)@,
                *final(regfile),
                *final(pc),
                final(memory)@,
                step_effect::<Self>(encoded, *old(regfile), *old(pc), old(memory)@),
            ),
            final(regfile).xregs@[0] == Self::zero_spec(),
            well_decoded(encoded),
    {
        proof {
            crate::decode::lemma_well_decoded(encoded);
            assert forall|regs: Registers<T>| (#[trigger] regs@)[0] == T::zero_spec() by {
                regs.lemma_view();
            }
        }
        let opcode: u32 = bit_extract(encoded, 0, 6);
        let funct3: u32 = bit_extract(encoded, 12, 14);
        let outcome: Outcome = if opcode == 0b0110111 {
            match T::lui(U::from_u32(encoded), &mut regfile.xregs) {
                Ok(()) => Outcome::Retired,
                Err(e) => {
                    return Err(e);
                },
            }
        } else if opcode == 0b0010111 {
            match T::auipc(U::from_u32(encoded), &mut regfile.xregs, *pc) {
                Ok(()) => Outcome::Retired,
                Err(e) => {
                    return Err(e);
                },
            }
        } else if opcode == 0b1101111 {
            let _ = T::jal(J::from_u32(encoded), &mut regfile.xregs, pc);
            return Ok(Outcome::Retired);
        } else if opcode == 0b1100111 {
            let _ = T::jalr(I::from_u32(encoded), &mut regfile.xregs, pc);
            return Ok(Outcome::Retired);
        } else if opcode == 0b1100011 {
            return match T::branch(B::from_u32(encoded), &mut regfile.xregs, pc) {
                Ok(()) => Ok(Outcome::Retired),
                Err(e) => Err(e),
            };
        } else if opcode == 0b0000011 {
            match T::load(I::from_u32(encoded), &mut regfile.xregs, memory) {
                Ok(()) => Outcome::Retired,
                Err(e) => {
                    return Err(e);
                },
            }
        } else if opcode == 0b0100011 {
            match T::store(S::from_u32(encoded), &mut regfile.xregs, memory) {
                Ok(()) => Outcome::Retired,
                Err(e) => {
                    return Err(e);
                },
            }
        } else if opcode == 0b0010011 {
            let result: Result<(), Error> = if funct3 == 0b001 || funct3 == 0b101 {
                T::shifti(Shift::from_u32(encoded), &mut regfile.xregs)
            } else {
                T::mathi(I::from_u32(encoded), &mut regfile.xregs)
            };
            match result {
                Ok(()) => Outcome::Retired,
                Err(e) => {
                    return Err(e);
                },
            }
        } else if opcode == 0b0110011 {
            match T::math(R::from_u32(encoded), &mut regfile.xregs) {
                Ok(()) => Outcome::Retired,
                Err(e) => {
                    return Err(e);
                },
            }
        } else if opcode == 0b0111011 {
            match T::mathw(R::from_u32(encoded), &mut regfile.xregs) {
                Ok(()) => Outcome::Retired,
                Err(e) => {
                    return Err(e);
                },
            }
        } else if opcode == 0b0011011 {
            let result: Result<(), Error> = if funct3 == 0b000 {
                T::mathiw(I::from_u32(encoded), &mut regfile.xregs)
            } else {
                T::shiftiw(Shift::from_u32(encoded), &mut regfile.xregs)
            };
            match result {
                Ok(()) => Outcome::Retired,
                Err(e) => {
                    return Err(e);
                },
            }
        } else if opcode == 0b1110011 {
            match T::csr(I::from_u32(encoded), &mut regfile.xregs, &mut regfile.csrs) {
                Ok(()) => Outcome::Retired,
                Err(e) => {
                    return Err(e);
                },
            }
        } else if opcode == 0b1010011 {
            match T::floats(R::from_u32(encoded), &mut regfile.fregs, &mut regfile.xregs) {
                Ok(outcome) => outcome,
                Err(e) => {
                    return Err(e);
                },
            }
        } else if opcode == 0b0000111 {
            match T::fload(
                I::from_u32(encoded),
                &mut regfile.xregs,
                &mut regfile.fregs,
                memory,
            ) {
                Ok(()) => Outcome::Retired,
                Err(e) => {
                    return Err(e);
                },
            }
        } else if opcode == 0b0100111 {
            match T::fstore(
                S::from_u32(encoded),
                &mut regfile.xregs,
                &mut regfile.fregs,
                memory,
            ) {
                Ok(()) => Outcome::Retired,
                Err(e) => {
                    return Err(e);
                },
            }
        } else if opcode == 0b1000011 {
            match T::fmadd(R4::from_u32(encoded), &regfile.fregs) {
                Ok(request) => Outcome::Pending(request),
                Err(e) => {
                    return Err(e);
                },
            }
        } else if opcode == 0b1000111 {
            match T::fmsub(R4::from_u32(encoded), &regfile.fregs) {
                Ok(request) => Outcome::Pending(request),
                Err(e) => {
                    return Err(e);
                },
            }
        } else if opcode == 0b1001011 {
            match T::fnmsub(R4::from_u32(encoded), &regfile.fregs) {
                Ok(request) => Outcome::Pending(request),
                Err(e) => {
                    return Err(e);
                },
            }
        } else if opcode == 0b1001111 {
            match T::fnmadd(R4::from_u32(encoded), &regfile.fregs) {
                Ok(request) => Outcome::Pending(request),
                Err(e) => {
                    return Err(e);
                },
            }
        } else {
            return Err(Error::InvalidOpCode);
        };
        pc.increment();
        Ok(outcome)
    }
}

/// Executes the instruction `encoded`: decodes it, performs it on the
/// registers, the program counter and the memory, and says what became of it.
pub fn step<T: Step>(encoded: u32, regfile: &mut RegFile<T>, pc: &mut T, memory: &mut [u8]) -> (out:
    Result<Outcome, Error>)
    ensures
        step_meets(
            out,
            *old(regfile),
            *old(pc),
            old(memory)@,
            *final(regfile),
            *final(pc),
            final(memory)@,
            step_effect::<T>(encoded, *old(regfile), *old(pc), old(memory)@),
        ),
        final(regfile).xregs@[0] == T::zero_spec(),
        well_decoded(encoded),
{
    T::step(encoded, regfile, pc, memory)
}

/// The instruction word at the address `addr`: the four bytes there, in
/// little-endian order. The fetch fails where the bytes do not lie inside
/// the memory.
pub open spec fn fetched(memory: Seq<u8>, addr: nat) -> Result<u32, Error> {
    if in_bounds(memory.len(), addr, 4) {
        Ok(le32(read_bytes(memory, addr as int, 4)) as u32)
    } else {
        Err(Error::InvalidOpCode)
    }
}

/// Reads the instruction word that the program counter points to.
pub fn fetch<T: ProgramCounter>(pc: &T, memory: &[u8]) -> (out: Result<u32, Error>)
    ensures
        out == fetched(memory@, pc.address_spec()),
{
    let addr: usize = match pc.address() {
        Some(addr) => addr,
        None => {
            assert(memory@.len() == memory.len());
            return Err(Error::InvalidOpCode);
        },
    };
    match read::<U32>(memory, addr) {
        Ok(word) => Ok(word.as_u32()),
        Err(e) => Err(e),
    }
}

/// One whole step of the machine: reads the instruction word at the program
/// counter and executes it. Where the fetch fails, nothing changes.
pub fn fetch_and_step<T: Step>(regfile: &mut RegFile<T>, pc: &mut T, memory: &mut [u8]) -> (out:
    Result<Outcome, Error>)
    ensures
        match fetched(old(memory)@, old(pc).address_spec()) {
            Ok(encoded) => step_meets(
                out,
                *old(regfile),
                *old(pc),
                old(memory)@,
                *final(regfile),
                *final(pc),
                final(memory)@,
                step_effect::<T>(encoded, *old(regfile), *old(pc), old(memory)@),
            ),
            Err(e) => out == Err::<Outcome, Error>(e) && *final(regfile) == *old(regfile)
                && *final(pc) == *old(pc) && final(memory)@ == old(memory)@,
        },
        final(regfile).xregs@[0] == T::zero_spec(),
{
    let encoded: u32 = match fetch(pc, memory) {
        Ok(encoded) => encoded,
        Err(e) => {
            proof {
                regfile.xregs.lemma_view();
            }
            return Err(e);
        },
    };
    T::step(encoded, regfile, pc, memory)
}

} // verus!
