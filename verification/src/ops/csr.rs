use crate::decode::U5;
use crate::num::As;
use vstd::prelude::*;

verus! {

/// Read and write: the register receives the source.
///
/// The destination receives the old value of the register. The new value of
/// the register is returned; the register itself is left for the caller to
/// write.
pub trait Csrrw: Sized {
    /// The new value of a register that held `old_value`.
    spec fn csrrw_spec(src: Self, old_value: Self) -> Self;

    fn csrrw(src: Self, dest: &mut Self, csr: &mut Self) -> (out: Self)
        ensures
            *final(dest) == *old(csr),
            *final(csr) == *old(csr),
            out == Self::csrrw_spec(src, *old(csr)),
    ;
}

/// Read and set: the register receives its old value with the bits of the source set.
///
/// The destination receives the old value of the register. The new value of
/// the register is returned; the register itself is left for the caller to
/// write.
pub trait Csrrs: Sized {
    /// The new value of a register that held `old_value`.
    spec fn csrrs_spec(src: Self, old_value: Self) -> Self;

    fn csrrs(src: Self, dest: &mut Self, csr: &mut Self) -> (out: Self)
        ensures
            *final(dest) == *old(csr),
            *final(csr) == *old(csr),
            out == Self::csrrs_spec(src, *old(csr)),
    ;
}

/// Read and clear: the register receives its old value with the bits of the source cleared.
///
/// The destination receives the old value of the register. The new value of
/// the register is returned; the register itself is left for the caller to
/// write.
pub trait Csrrc: Sized {
    /// The new value of a register that held `old_value`.
    spec fn csrrc_spec(src: Self, old_value: Self) -> Self;

    fn csrrc(src: Self, dest: &mut Self, csr: &mut Self) -> (out: Self)
        ensures
            *final(dest) == *old(csr),
            *final(csr) == *old(csr),
            out == Self::csrrc_spec(src, *old(csr)),
    ;
}

/// Read and write, with the immediate, zero-extended, as the source.
///
/// The destination receives the old value of the register. The new value of
/// the register is returned; the register itself is left for the caller to
/// write.
pub trait Csrrwi: Sized {
    /// The new value of a register that held `old_value`.
    spec fn csrrwi_spec(imm: U5, old_value: Self) -> Self;

    fn csrrwi(imm: U5, dest: &mut Self, csr: &mut Self) -> (out: Self)
        ensures
            *final(dest) == *old(csr),
            *final(csr) == *old(csr),
            out == Self::csrrwi_spec(imm, *old(csr)),
    ;
}

/// Read and set, with the immediate, zero-extended, as the source.
///
/// The destination receives the old value of the register. The new value of
/// the register is returned; the register itself is left for the caller to
/// write.
pub trait Csrrsi: Sized {
    /// The new value of a register that held `old_value`.
    spec fn csrrsi_spec(imm: U5, old_value: Self) -> Self;

    fn csrrsi(imm: U5, dest: &mut Self, csr: &mut Self) -> (out: Self)
        ensures
            *final(dest) == *old(csr),
            *final(csr) == *old(csr),
            out == Self::csrrsi_spec(imm, *old(csr)),
    ;
}

/// Read and clear, with the immediate, zero-extended, as the source.
///
/// The destination receives the old value of the register. The new value of
/// the register is returned; the register itself is left for the caller to
/// write.
pub trait Csrrci: Sized {
    /// The new value of a register that held `old_value`.
    spec fn csrrci_spec(imm: U5, old_value: Self) -> Self;

    fn csrrci(imm: U5, dest: &mut Self, csr: &mut Self) -> (out: Self)
        ensures
            *final(dest) == *old(csr),
            *final(csr) == *old(csr),
            out == Self::csrrci_spec(imm, *old(csr)),
    ;
}

/// The six operations on control and status registers.
pub trait BaseCsr: Csrrw + Csrrs + Csrrc + Csrrwi + Csrrsi + Csrrci {
}

impl Csrrw for u32 {
    open spec fn csrrw_spec(src: Self, old_value: Self) -> Self {
        src
    }

    fn csrrw(src: Self, dest: &mut Self, csr: &mut Self) -> (out: Self)
        ensures
            *final(dest) == *old(csr),
            *final(csr) == *old(csr),
            out == Self::csrrw_spec(src, *old(csr)),
    {
        *dest = *csr;
        src
    }
}

impl Csrrs for u32 {
    open spec fn csrrs_spec(src: Self, old_value: Self) -> Self {
        old_value | src
    }

    fn csrrs(src: Self, dest: &mut Self, csr: &mut Self) -> (out: Self)
        ensures
            *final(dest) == *old(csr),
            *final(csr) == *old(csr),
            out == Self::csrrs_spec(src, *old(csr)),
    {
        *dest = *csr;
        *csr | src
    }
}

impl Csrrc for u32 {
    open spec fn csrrc_spec(src: Self, old_value: Self) -> Self {
        old_value & !src
    }

    fn csrrc(src: Self, dest: &mut Self, csr: &mut Self) -> (out: Self)
        ensures
            *final(dest) == *old(csr),
            *final(csr) == *old(csr),
            out == Self::csrrc_spec(src, *old(csr)),
    {
        *dest = *csr;
        *csr & !src
    }
}

impl Csrrwi for u32 {
    open spec fn csrrwi_spec(imm: U5, old_value: Self) -> Self {
        imm@ as u32
    }

    fn csrrwi(imm: U5, dest: &mut Self, csr: &mut Self) -> (out: Self)
        ensures
            *final(dest) == *old(csr),
            *final(csr) == *old(csr),
            out == Self::csrrwi_spec(imm, *old(csr)),
    {
        *dest = *csr;
        As::<u32>::cast(imm.as_u8())
    }
}

impl Csrrsi for u32 {
    open spec fn csrrsi_spec(imm: U5, old_value: Self) -> Self {
        old_value | (imm@ as u32)
    }

    fn csrrsi(imm: U5, dest: &mut Self, csr: &mut Self) -> (out: Self)
        ensures
            *final(dest) == *old(csr),
            *final(csr) == *old(csr),
            out == Self::csrrsi_spec(imm, *old(csr)),
    {
        *dest = *csr;
        let source: u32 = As::<u32>::cast(imm.as_u8());
        *csr | source
    }
}

impl Csrrci for u32 {
    open spec fn csrrci_spec(imm: U5, old_value: Self) -> Self {
        old_value & !(imm@ as u32)
    }

    fn csrrci(imm: U5, dest: &mut Self, csr: &mut Self) -> (out: Self)
        ensures
            *final(dest) == *old(csr),
            *final(csr) == *old(csr),
            out == Self::csrrci_spec(imm, *old(csr)),
    {
        *dest = *csr;
        let source: u32 = As::<u32>::cast(imm.as_u8());
        *csr & !source
    }
}

impl BaseCsr for u32 {
}

impl Csrrw for u64 {
    open spec fn csrrw_spec(src: Self, old_value: Self) -> Self {
        src
    }

    fn csrrw(src: Self, dest: &mut Self, csr: &mut Self) -> (out: Self)
        ensures
            *final(dest) == *old(csr),
            *final(csr) == *old(csr),
            out == Self::csrrw_spec(src, *old(csr)),
    {
        *dest = *csr;
        src
    }
}

impl Csrrs for u64 {
    open spec fn csrrs_spec(src: Self, old_value: Self) -> Self {
        old_value | src
    }

    fn csrrs(src: Self, dest: &mut Self, csr: &mut Self) -> (out: Self)
        ensures
            *final(dest) == *old(csr),
            *final(csr) == *old(csr),
            out == Self::csrrs_spec(src, *old(csr)),
    {
        *dest = *csr;
        *csr | src
    }
}

impl Csrrc for u64 {
    open spec fn csrrc_spec(src: Self, old_value: Self) -> Self {
        old_value & !src
    }

    fn csrrc(src: Self, dest: &mut Self, csr: &mut Self) -> (out: Self)
        ensures
            *final(dest) == *old(csr),
            *final(csr) == *old(csr),
            out == Self::csrrc_spec(src, *old(csr)),
    {
        *dest = *csr;
        *csr & !src
    }
}

impl Csrrwi for u64 {
    open spec fn csrrwi_spec(imm: U5, old_value: Self) -> Self {
        imm@ as u64
    }

    fn csrrwi(imm: U5, dest: &mut Self, csr: &mut Self) -> (out: Self)
        ensures
            *final(dest) == *old(csr),
            *final(csr) == *old(csr),
            out == Self::csrrwi_spec(imm, *old(csr)),
    {
        *dest = *csr;
        As::<u64>::cast(imm.as_u8())
    }
}

impl Csrrsi for u64 {
    open spec fn csrrsi_spec(imm: U5, old_value: Self) -> Self {
        old_value | (imm@ as u64)
    }

    fn csrrsi(imm: U5, dest: &mut Self, csr: &mut Self) -> (out: Self)
        ensures
            *final(dest) == *old(csr),
            *final(csr) == *old(csr),
            out == Self::csrrsi_spec(imm, *old(csr)),
    {
        *dest = *csr;
        let source: u64 = As::<u64>::cast(imm.as_u8());
        *csr | source
    }
}

impl Csrrci for u64 {
    open spec fn csrrci_spec(imm: U5, old_value: Self) -> Self {
        old_value & !(imm@ as u64)
    }

    fn csrrci(imm: U5, dest: &mut Self, csr: &mut Self) -> (out: Self)
        ensures
            *final(dest) == *old(csr),
            *final(csr) == *old(csr),
            out == Self::csrrci_spec(imm, *old(csr)),
    {
        *dest = *csr;
        let source: u64 = As::<u64>::cast(imm.as_u8());
        *csr & !source
    }
}

impl BaseCsr for u64 {
}

} // verus!
