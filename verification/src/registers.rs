use crate::decode::U5;
use vstd::prelude::*;

verus! {

/// A word type with its zero.
pub trait Zero: Sized {
    spec fn zero_spec() -> Self;

    fn zero() -> (out: Self)
        ensures
            out == Self::zero_spec(),
    ;
}

impl Zero for u32 {
    open spec fn zero_spec() -> Self {
        0
    }

    fn zero() -> (out: Self)
        ensures
            out == Self::zero_spec(),
    {
        0
    }
}

impl Zero for u64 {
    open spec fn zero_spec() -> Self {
        0
    }

    fn zero() -> (out: Self)
        ensures
            out == Self::zero_spec(),
    {
        0
    }
}

/// A program counter that advances by the size of one instruction.
pub trait ProgramCounter: Sized {
    /// The program counter after an instruction that does not set it.
    spec fn incremented(self) -> Self;

    /// The address in memory that the program counter holds.
    spec fn address_spec(self) -> nat;

    fn increment(&mut self)
        ensures
            *final(self) == old(self).incremented(),
    ;

    /// The address that the program counter holds, where the machine that
    /// runs the engine can hold it.
    fn address(&self) -> (out: Option<usize>)
        ensures
            out matches Some(addr) ==> addr == self.address_spec(),
            out.is_none() ==> self.address_spec() > usize::MAX,
    ;
}

impl ProgramCounter for u32 {
    open spec fn incremented(self) -> Self {
        crate::num::wrap32(self + 4)
    }

    open spec fn address_spec(self) -> nat {
        self as nat
    }

    fn increment(&mut self)
        ensures
            *final(self) == old(self).incremented(),
    {
        *self = self.wrapping_add(4);
    }

    fn address(&self) -> (out: Option<usize>)
        ensures
            out matches Some(addr) ==> addr == self.address_spec(),
            out.is_none() ==> self.address_spec() > usize::MAX,
    {
        Some(*self as usize)
    }
}

impl ProgramCounter for u64 {
    open spec fn incremented(self) -> Self {
        crate::num::wrap64(self + 4)
    }

    open spec fn address_spec(self) -> nat {
        self as nat
    }

    fn increment(&mut self)
        ensures
            *final(self) == old(self).incremented(),
    {
        *self = self.wrapping_add(4);
    }

    fn address(&self) -> (out: Option<usize>)
        ensures
            out matches Some(addr) ==> addr == self.address_spec(),
            out.is_none() ==> self.address_spec() > usize::MAX,
    {
        if *self > usize::MAX as u64 {
            None
        } else {
            Some(*self as usize)
        }
    }
}

/// One of the 31 registers that can be written.
#[derive(Clone, Copy, Debug, PartialEq, Eq, Structural)]
pub enum Register {
    X1,
    X2,
    X3,
    X4,
    X5,
    X6,
    X7,
    X8,
    X9,
    X10,
    X11,
    X12,
    X13,
    X14,
    X15,
    X16,
    X17,
    X18,
    X19,
    X20,
    X21,
    X22,
    X23,
    X24,
    X25,
    X26,
    X27,
    X28,
    X29,
    X30,
    X31,
}

impl Register {
    /// The register with the number `index`, from 1 to 31.
    pub open spec fn of(index: nat) -> Register
        recommends
            1 <= index <= 31,
    {
        if index == 1 {
            Register::X1
        } else if index == 2 {
            Register::X2
        } else if index == 3 {
            Register::X3
        } else if index == 4 {
            Register::X4
        } else if index == 5 {
            Register::X5
        } else if index == 6 {
            Register::X6
        } else if index == 7 {
            Register::X7
        } else if index == 8 {
            Register::X8
        } else if index == 9 {
            Register::X9
        } else if index == 10 {
            Register::X10
        } else if index == 11 {
            Register::X11
        } else if index == 12 {
            Register::X12
        } else if index == 13 {
            Register::X13
        } else if index == 14 {
            Register::X14
        } else if index == 15 {
            Register::X15
        } else if index == 16 {
            Register::X16
        } else if index == 17 {
            Register::X17
        } else if index == 18 {
            Register::X18
        } else if index == 19 {
            Register::X19
        } else if index == 20 {
            Register::X20
        } else if index == 21 {
            Register::X21
        } else if index == 22 {
            Register::X22
        } else if index == 23 {
            Register::X23
        } else if index == 24 {
            Register::X24
        } else if index == 25 {
            Register::X25
        } else if index == 26 {
            Register::X26
        } else if index == 27 {
            Register::X27
        } else if index == 28 {
            Register::X28
        } else if index == 29 {
            Register::X29
        } else if index == 30 {
            Register::X30
        } else {
            Register::X31
        }
    }

    /// The number of the register, from 1 to 31.
    pub open spec fn index_spec(self) -> nat {
        match self {
            Register::X1 => 1,
            Register::X2 => 2,
            Register::X3 => 3,
            Register::X4 => 4,
            Register::X5 => 5,
            Register::X6 => 6,
            Register::X7 => 7,
            Register::X8 => 8,
            Register::X9 => 9,
            Register::X10 => 10,
            Register::X11 => 11,
            Register::X12 => 12,
            Register::X13 => 13,
            Register::X14 => 14,
            Register::X15 => 15,
            Register::X16 => 16,
            Register::X17 => 17,
            Register::X18 => 18,
            Register::X19 => 19,
            Register::X20 => 20,
            Register::X21 => 21,
            Register::X22 => 22,
            Register::X23 => 23,
            Register::X24 => 24,
            Register::X25 => 25,
            Register::X26 => 26,
            Register::X27 => 27,
            Register::X28 => 28,
            Register::X29 => 29,
            Register::X30 => 30,
            Register::X31 => 31,
        }
    }

    pub fn index(self) -> (out: usize)
        ensures
            out == self.index_spec(),
            1 <= out <= 31,
            Register::of(out as nat) == self,
    {
        match self {
            Register::X1 => 1,
            Register::X2 => 2,
            Register::X3 => 3,
            Register::X4 => 4,
            Register::X5 => 5,
            Register::X6 => 6,
            Register::X7 => 7,
            Register::X8 => 8,
            Register::X9 => 9,
            Register::X10 => 10,
            Register::X11 => 11,
            Register::X12 => 12,
            Register::X13 => 13,
            Register::X14 => 14,
            Register::X15 => 15,
            Register::X16 => 16,
            Register::X17 => 17,
            Register::X18 => 18,
            Register::X19 => 19,
            Register::X20 => 20,
            Register::X21 => 21,
            Register::X22 => 22,
            Register::X23 => 23,
            Register::X24 => 24,
            Register::X25 => 25,
            Register::X26 => 26,
            Register::X27 => 27,
            Register::X28 => 28,
            Register::X29 => 29,
            Register::X30 => 30,
            Register::X31 => 31,
        }
    }

    /// Reads this register.
    pub fn fetch<T: Zero + Copy>(self, regs: &Registers<T>) -> (out: T)
        ensures
            out == regs@[self.index_spec() as int],
    {
        regs.get(self)
    }
}

/// A register selector of five bits: the zero register or a writable one.
#[derive(Clone, Copy, Debug, PartialEq, Eq, Structural)]
pub enum ZeroOrRegister {
    Zero,
    Register(Register),
}

impl ZeroOrRegister {
    /// The number of the register that is selected, from 0 to 31.
    pub open spec fn index_spec(self) -> nat {
        match self {
            ZeroOrRegister::Zero => 0,
            ZeroOrRegister::Register(register) => register.index_spec(),
        }
    }

    /// The selector with the number `index`, from 0 to 31.
    pub open spec fn of(index: nat) -> ZeroOrRegister
        recommends
            index <= 31,
    {
        if index == 0 {
            ZeroOrRegister::Zero
        } else {
            ZeroOrRegister::Register(Register::of(index))
        }
    }

    /// The selector for a register field of an instruction.
    pub fn from_u5(field: U5) -> (out: Self)
        ensures
            out == ZeroOrRegister::of(field@),
            out.index_spec() == field@,
    {
        let index: u8 = field.as_u8();
        if index == 1 {
            ZeroOrRegister::Register(Register::X1)
        } else         if index == 2 {
            ZeroOrRegister::Register(Register::X2)
        } else         if index == 3 {
            ZeroOrRegister::Register(Register::X3)
        } else         if index == 4 {
            ZeroOrRegister::Register(Register::X4)
        } else         if index == 5 {
            ZeroOrRegister::Register(Register::X5)
        } else         if index == 6 {
            ZeroOrRegister::Register(Register::X6)
        } else         if index == 7 {
            ZeroOrRegister::Register(Register::X7)
        } else         if index == 8 {
            ZeroOrRegister::Register(Register::X8)
        } else         if index == 9 {
            ZeroOrRegister::Register(Register::X9)
        } else         if index == 10 {
            ZeroOrRegister::Register(Register::X10)
        } else         if index == 11 {
            ZeroOrRegister::Register(Register::X11)
        } else         if index == 12 {
            ZeroOrRegister::Register(Register::X12)
        } else         if index == 13 {
            ZeroOrRegister::Register(Register::X13)
        } else         if index == 14 {
            ZeroOrRegister::Register(Register::X14)
        } else         if index == 15 {
            ZeroOrRegister::Register(Register::X15)
        } else         if index == 16 {
            ZeroOrRegister::Register(Register::X16)
        } else         if index == 17 {
            ZeroOrRegister::Register(Register::X17)
        } else         if index == 18 {
            ZeroOrRegister::Register(Register::X18)
        } else         if index == 19 {
            ZeroOrRegister::Register(Register::X19)
        } else         if index == 20 {
            ZeroOrRegister::Register(Register::X20)
        } else         if index == 21 {
            ZeroOrRegister::Register(Register::X21)
        } else         if index == 22 {
            ZeroOrRegister::Register(Register::X22)
        } else         if index == 23 {
            ZeroOrRegister::Register(Register::X23)
        } else         if index == 24 {
            ZeroOrRegister::Register(Register::X24)
        } else         if index == 25 {
            ZeroOrRegister::Register(Register::X25)
        } else         if index == 26 {
            ZeroOrRegister::Register(Register::X26)
        } else         if index == 27 {
            ZeroOrRegister::Register(Register::X27)
        } else         if index == 28 {
            ZeroOrRegister::Register(Register::X28)
        } else         if index == 29 {
            ZeroOrRegister::Register(Register::X29)
        } else         if index == 30 {
            ZeroOrRegister::Register(Register::X30)
        } else         if index == 31 {
            ZeroOrRegister::Register(Register::X31)
        } else {
            ZeroOrRegister::Zero
        }
    }

    /// Reads the selected register; the zero register reads as zero.
    pub fn fetch<T: Zero + Copy>(self, regs: &Registers<T>) -> (out: T)
        ensures
            out == regs@[self.index_spec() as int],
    {
        match self {
            ZeroOrRegister::Zero => {
                proof {
                    regs.lemma_view();
                }
                T::zero()
            },
            ZeroOrRegister::Register(register) => regs.get(register),
        }
    }

    /// A handle on the selected register, or nothing for the zero register.
    pub fn fetch_mut<T: Zero + Copy>(self, regs: &mut Registers<T>) -> (out: Option<&mut T>)
        ensures
            out.is_none() <==> self == ZeroOrRegister::Zero,
            out.is_none() ==> *final(regs) == *old(regs),
            out matches Some(slot) ==> *slot == old(regs)@[self.index_spec() as int]
                && final(regs)@ == old(regs)@.update(self.index_spec() as int, *final(slot)),
    {
        match self {
            ZeroOrRegister::Zero => None,
            ZeroOrRegister::Register(register) => Some(regs.get_mut(register)),
        }
    }
}

/// A file of 32 registers, of which the first always reads as zero.
#[derive(Clone, Copy, Debug)]
pub struct Registers<T> {
    slots: [T; 31],
}

impl<T: Zero + Copy> Registers<T> {
    /// The 32 values that the registers read as, by register number.
    pub closed spec fn view(&self) -> Seq<T> {
        seq![T::zero_spec()] + self.slots@
    }

    /// The file has 32 entries, and entry 0 is zero.
    pub proof fn lemma_view(&self)
        ensures
            self@.len() == 32,
            self@[0] == T::zero_spec(),
    {
    }

    /// A file in which every register is zero.
    pub fn new() -> (out: Self)
        ensures
            out@.len() == 32,
            forall|i: int| 0 <= i < 32 ==> out@[i] == T::zero_spec(),
    {
        Registers { slots: [T::zero();31] }
    }

    /// A file in which the stack pointer, register 2, holds `sp`, and every
    /// other register is zero.
    pub fn with_sp(sp: T) -> (out: Self)
        ensures
            out@.len() == 32,
            out@ == Seq::new(32, |i: int| T::zero_spec()).update(2, sp),
    {
        let mut out: Self = Registers { slots: [T::zero();31] };
        out.slots[1] = sp;
        assert(out@ =~= Seq::new(32, |i: int| T::zero_spec()).update(2, sp));
        out
    }

    /// Reads a register.
    pub fn get(&self, register: Register) -> (out: T)
        ensures
            self@.len() == 32,
            out == self@[register.index_spec() as int],
    {
        self.slots[register.index() - 1]
    }

    /// A handle on a register. What is written through it is what the
    /// register holds afterwards; no other register changes.
    pub fn get_mut(&mut self, register: Register) -> (slot: &mut T)
        ensures
            old(self)@.len() == 32,
            *slot == old(self)@[register.index_spec() as int],
            final(self)@ == old(self)@.update(register.index_spec() as int, *final(slot)),
    {
        let index: usize = register.index() - 1;
        proof {
            assert forall|value: T|
                (seq![T::zero_spec()] + #[trigger] self.slots@.update(index as int, value)) == (
                seq![T::zero_spec()] + self.slots@).update(index + 1, value) by {
                assert((seq![T::zero_spec()] + self.slots@.update(index as int, value)) =~= (
                seq![T::zero_spec()] + self.slots@).update(index + 1, value));
            }
        }
        &mut self.slots[index]
    }
}

impl<T: Zero + Copy> Default for Registers<T> {
    fn default() -> (out: Self)
        ensures
            out@.len() == 32,
            forall|i: int| 0 <= i < 32 ==> out@[i] == T::zero_spec(),
    {
        Registers::new()
    }
}

/// The number of control and status registers: one for each address of 12 bits.
pub const CSR_COUNT: usize = 4096;

/// A control and status register cannot be written where the two upper bits
/// of its address are both set.
pub open spec fn csr_read_only(addr: nat) -> bool {
    addr / 1024 == 3
}

/// The file of control and status registers, by address.
#[derive(Clone, Debug)]
pub struct CsrRegisters<T> {
    slots: [T; 4096],
}

impl<T: Zero + Copy> CsrRegisters<T> {
    /// The 4096 values that the registers hold, by address.
    pub closed spec fn view(&self) -> Seq<T> {
        self.slots@
    }

    /// The file has 4096 entries.
    pub proof fn lemma_view(&self)
        ensures
            self@.len() == CSR_COUNT,
    {
    }

    /// A file in which every register is zero.
    pub fn new() -> (out: Self)
        ensures
            out@.len() == CSR_COUNT,
            forall|i: int| 0 <= i < 4096 ==> out@[i] == T::zero_spec(),
    {
        CsrRegisters { slots: [T::zero();4096] }
    }

    /// Reads the register at `addr`.
    pub fn get(&self, addr: usize) -> (out: T)
        requires
            addr < CSR_COUNT,
        ensures
            out == self@[addr as int],
    {
        self.slots[addr]
    }

    /// A handle on the register at `addr`, or nothing where that register is
    /// read-only. What is written through the handle is what the register
    /// holds afterwards; no other register changes.
    pub fn get_mut(&mut self, addr: usize) -> (out: Option<&mut T>)
        requires
            addr < CSR_COUNT,
        ensures
            old(self)@.len() == CSR_COUNT,
            out.is_none() <==> csr_read_only(addr as nat),
            out.is_none() ==> *final(self) == *old(self),
            out matches Some(slot) ==> *slot == old(self)@[addr as int]
                && final(self)@ == old(self)@.update(addr as int, *final(slot)),
    {
        if addr / 1024 == 3 {
            None
        } else {
            Some(&mut self.slots[addr])
        }
    }
}

impl<T: Zero + Copy> Default for CsrRegisters<T> {
    fn default() -> (out: Self)
        ensures
            out@.len() == CSR_COUNT,
            forall|i: int| 0 <= i < 4096 ==> out@[i] == T::zero_spec(),
    {
        CsrRegisters::new()
    }
}

/// The architectural registers of one processor: the integer file, the
/// floating-point file and the control and status registers.
#[derive(Clone, Debug)]
pub struct RegFile<T> {
    pub xregs: Registers<T>,
    pub fregs: Registers<T>,
    pub csrs: CsrRegisters<T>,
}

impl<T: Zero + Copy> RegFile<T> {
    pub fn new(xregs: Registers<T>, fregs: Registers<T>, csrs: CsrRegisters<T>) -> (out: Self)
        ensures
            out.xregs == xregs,
            out.fregs == fregs,
            out.csrs == csrs,
    {
        RegFile { xregs, fregs, csrs }
    }
}

impl<T: Zero + Copy> Default for RegFile<T> {
    fn default() -> (out: Self)
        ensures
            out.xregs@.len() == 32,
            out.fregs@.len() == 32,
            out.csrs@.len() == CSR_COUNT,
            forall|i: int| 0 <= i < 32 ==> out.xregs@[i] == T::zero_spec(),
            forall|i: int| 0 <= i < 32 ==> out.fregs@[i] == T::zero_spec(),
            forall|i: int| 0 <= i < 4096 ==> out.csrs@[i] == T::zero_spec(),
    {
        RegFile { xregs: Registers::new(), fregs: Registers::new(), csrs: CsrRegisters::new() }
    }
}

} // verus!
