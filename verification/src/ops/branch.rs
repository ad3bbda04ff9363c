use crate::num::{signed32, signed64, Bitcast};
use vstd::prelude::*;

verus! {

/// Whether the operands are equal.
pub trait Beq: Sized {
    spec fn beq_spec(self, other: Self) -> bool;

    fn beq(self, other: Self) -> (out: bool)
        ensures
            out == self.beq_spec(other),
    ;
}

/// Whether the operands differ.
pub trait Bne: Sized {
    spec fn bne_spec(self, other: Self) -> bool;

    fn bne(self, other: Self) -> (out: bool)
        ensures
            out == self.bne_spec(other),
    ;
}

/// Whether the first operand is less than the second, both read as signed.
pub trait Blt: Sized {
    spec fn blt_spec(self, other: Self) -> bool;

    fn blt(self, other: Self) -> (out: bool)
        ensures
            out == self.blt_spec(other),
    ;
}

/// Whether the first operand is at least the second, both read as signed.
pub trait Bge: Sized {
    spec fn bge_spec(self, other: Self) -> bool;

    fn bge(self, other: Self) -> (out: bool)
        ensures
            out == self.bge_spec(other),
    ;
}

/// Whether the first operand is less than the second, both read as unsigned.
pub trait Bltu: Sized {
    spec fn bltu_spec(self, other: Self) -> bool;

    fn bltu(self, other: Self) -> (out: bool)
        ensures
            out == self.bltu_spec(other),
    ;
}

/// Whether the first operand is at least the second, both read as unsigned.
pub trait Bgeu: Sized {
    spec fn bgeu_spec(self, other: Self) -> bool;

    fn bgeu(self, other: Self) -> (out: bool)
        ensures
            out == self.bgeu_spec(other),
    ;
}

/// The six predicates of the conditional branches.
pub trait BaseBranch: Beq + Bne + Blt + Bge + Bltu + Bgeu {
}

impl Beq for u32 {
    open spec fn beq_spec(self, other: Self) -> bool {
        self == other
    }

    fn beq(self, other: Self) -> (out: bool)
        ensures
            out == self.beq_spec(other),
    {
        self == other
    }
}

impl Bne for u32 {
    open spec fn bne_spec(self, other: Self) -> bool {
        self != other
    }

    fn bne(self, other: Self) -> (out: bool)
        ensures
            out == self.bne_spec(other),
    {
        self != other
    }
}

impl Blt for u32 {
    open spec fn blt_spec(self, other: Self) -> bool {
        signed32(self) < signed32(other)
    }

    fn blt(self, other: Self) -> (out: bool)
        ensures
            out == self.blt_spec(other),
    {
        let a: i32 = Bitcast::<i32>::bitcast(self);
        let b: i32 = Bitcast::<i32>::bitcast(other);
        a < b
    }
}

impl Bge for u32 {
    open spec fn bge_spec(self, other: Self) -> bool {
        signed32(self) >= signed32(other)
    }

    fn bge(self, other: Self) -> (out: bool)
        ensures
            out == self.bge_spec(other),
    {
        let a: i32 = Bitcast::<i32>::bitcast(self);
        let b: i32 = Bitcast::<i32>::bitcast(other);
        a >= b
    }
}

impl Bltu for u32 {
    open spec fn bltu_spec(self, other: Self) -> bool {
        self < other
    }

    fn bltu(self, other: Self) -> (out: bool)
        ensures
            out == self.bltu_spec(other),
    {
        self < other
    }
}

impl Bgeu for u32 {
    open spec fn bgeu_spec(self, other: Self) -> bool {
        self >= other
    }

    fn bgeu(self, other: Self) -> (out: bool)
        ensures
            out == self.bgeu_spec(other),
    {
        self >= other
    }
}

impl BaseBranch for u32 {
}

impl Beq for u64 {
    open spec fn beq_spec(self, other: Self) -> bool {
        self == other
    }

    fn beq(self, other: Self) -> (out: bool)
        ensures
            out == self.beq_spec(other),
    {
        self == other
    }
}

impl Bne for u64 {
    open spec fn bne_spec(self, other: Self) -> bool {
        self != other
    }

    fn bne(self, other: Self) -> (out: bool)
        ensures
            out == self.bne_spec(other),
    {
        self != other
    }
}

impl Blt for u64 {
    open spec fn blt_spec(self, other: Self) -> bool {
        signed64(self) < signed64(other)
    }

    fn blt(self, other: Self) -> (out: bool)
        ensures
            out == self.blt_spec(other),
    {
        let a: i64 = Bitcast::<i64>::bitcast(self);
        let b: i64 = Bitcast::<i64>::bitcast(other);
        a < b
    }
}

impl Bge for u64 {
    open spec fn bge_spec(self, other: Self) -> bool {
        signed64(self) >= signed64(other)
    }

    fn bge(self, other: Self) -> (out: bool)
        ensures
            out == self.bge_spec(other),
    {
        let a: i64 = Bitcast::<i64>::bitcast(self);
        let b: i64 = Bitcast::<i64>::bitcast(other);
        a >= b
    }
}

impl Bltu for u64 {
    open spec fn bltu_spec(self, other: Self) -> bool {
        self < other
    }

    fn bltu(self, other: Self) -> (out: bool)
        ensures
            out == self.bltu_spec(other),
    {
        self < other
    }
}

impl Bgeu for u64 {
    open spec fn bgeu_spec(self, other: Self) -> bool {
        self >= other
    }

    fn bgeu(self, other: Self) -> (out: bool)
        ensures
            out == self.bgeu_spec(other),
    {
        self >= other
    }
}

impl BaseBranch for u64 {
}

} // verus!
