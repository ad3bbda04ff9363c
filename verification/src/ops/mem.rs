use crate::error::Error;
use crate::mem::{
    as_signed, in_bounds, le16, le32, le64, le_bytes16, le_bytes32, le_bytes64, read, read_bytes,
    write_bytes, I16, I32, U16, U32, U64,
};
use crate::num::{wrap32, wrap64, As, Bitcast};
use vstd::prelude::*;

verus! {

/// The result of a store of `bytes` at `addr`: the memory after it, or the
/// error where the bytes do not lie inside the memory.
pub open spec fn store_result(memory: Seq<u8>, addr: nat, bytes: Seq<u8>) -> Result<
    Seq<u8>,
    Error,
> {
    if in_bounds(memory.len(), addr, bytes.len()) {
        Ok(write_bytes(memory, addr as int, bytes))
    } else {
        Err(Error::InvalidOpCode)
    }
}

/// A store returned `out` and left `after` in memory, as `expected` says:
/// on success the memory is the expected one, on failure it is unchanged.
pub open spec fn store_meets(
    out: Result<(), Error>,
    before: Seq<u8>,
    after: Seq<u8>,
    expected: Result<Seq<u8>, Error>,
) -> bool {
    match expected {
        Ok(memory) => out == Ok::<(), Error>(()) && after == memory,
        Err(e) => out == Err::<(), Error>(e) && after == before,
    }
}

/// Loads a byte and sign-extends it.
///
/// The load succeeds exactly where its bytes lie inside the memory.
pub trait Lb: Sized {
    spec fn lb_spec(memory: Seq<u8>, addr: nat) -> Result<Self, Error>;

    fn lb(memory: &[u8], addr: usize) -> (out: Result<Self, Error>)
        ensures
            out == Self::lb_spec(memory@, addr as nat),
    ;
}

/// Loads a byte and zero-extends it.
///
/// The load succeeds exactly where its bytes lie inside the memory.
pub trait Lbu: Sized {
    spec fn lbu_spec(memory: Seq<u8>, addr: nat) -> Result<Self, Error>;

    fn lbu(memory: &[u8], addr: usize) -> (out: Result<Self, Error>)
        ensures
            out == Self::lbu_spec(memory@, addr as nat),
    ;
}

/// Loads two bytes and sign-extends them.
///
/// The load succeeds exactly where its bytes lie inside the memory.
pub trait Lh: Sized {
    spec fn lh_spec(memory: Seq<u8>, addr: nat) -> Result<Self, Error>;

    fn lh(memory: &[u8], addr: usize) -> (out: Result<Self, Error>)
        ensures
            out == Self::lh_spec(memory@, addr as nat),
    ;
}

/// Loads two bytes and zero-extends them.
///
/// The load succeeds exactly where its bytes lie inside the memory.
pub trait Lhu: Sized {
    spec fn lhu_spec(memory: Seq<u8>, addr: nat) -> Result<Self, Error>;

    fn lhu(memory: &[u8], addr: usize) -> (out: Result<Self, Error>)
        ensures
            out == Self::lhu_spec(memory@, addr as nat),
    ;
}

/// Loads four bytes; a word of 64 bits receives them sign-extended.
///
/// The load succeeds exactly where its bytes lie inside the memory.
pub trait Lw: Sized {
    spec fn lw_spec(memory: Seq<u8>, addr: nat) -> Result<Self, Error>;

    fn lw(memory: &[u8], addr: usize) -> (out: Result<Self, Error>)
        ensures
            out == Self::lw_spec(memory@, addr as nat),
    ;
}

/// Loads four bytes and zero-extends them.
///
/// The load succeeds exactly where its bytes lie inside the memory.
pub trait Lwu: Sized {
    spec fn lwu_spec(memory: Seq<u8>, addr: nat) -> Result<Self, Error>;

    fn lwu(memory: &[u8], addr: usize) -> (out: Result<Self, Error>)
        ensures
            out == Self::lwu_spec(memory@, addr as nat),
    ;
}

/// Loads eight bytes.
///
/// The load succeeds exactly where its bytes lie inside the memory.
pub trait Ld: Sized {
    spec fn ld_spec(memory: Seq<u8>, addr: nat) -> Result<Self, Error>;

    fn ld(memory: &[u8], addr: usize) -> (out: Result<Self, Error>)
        ensures
            out == Self::ld_spec(memory@, addr as nat),
    ;
}

/// Loads the four bytes of a single-precision number; the upper bits of a wider word are zero.
///
/// The load succeeds exactly where its bytes lie inside the memory.
pub trait Flw: Sized {
    spec fn flw_spec(memory: Seq<u8>, addr: nat) -> Result<Self, Error>;

    fn flw(memory: &[u8], addr: usize) -> (out: Result<Self, Error>)
        ensures
            out == Self::flw_spec(memory@, addr as nat),
    ;
}

/// Stores the low byte.
///
/// The store succeeds exactly where its bytes lie inside the memory; where it
/// fails, the memory is unchanged.
pub trait Sb: Sized {
    spec fn sb_spec(src: Self, memory: Seq<u8>, addr: nat) -> Result<Seq<u8>, Error>;

    fn sb(src: Self, memory: &mut [u8], addr: usize) -> (out: Result<(), Error>)
        ensures
            store_meets(
                out,
                old(memory)@,
                final(memory)@,
                Self::sb_spec(src, old(memory)@, addr as nat),
            ),
    ;
}

/// Stores the low two bytes.
///
/// The store succeeds exactly where its bytes lie inside the memory; where it
/// fails, the memory is unchanged.
pub trait Sh: Sized {
    spec fn sh_spec(src: Self, memory: Seq<u8>, addr: nat) -> Result<Seq<u8>, Error>;

    fn sh(src: Self, memory: &mut [u8], addr: usize) -> (out: Result<(), Error>)
        ensures
            store_meets(
                out,
                old(memory)@,
                final(memory)@,
                Self::sh_spec(src, old(memory)@, addr as nat),
            ),
    ;
}

/// Stores the low four bytes.
///
/// The store succeeds exactly where its bytes lie inside the memory; where it
/// fails, the memory is unchanged.
pub trait Sw: Sized {
    spec fn sw_spec(src: Self, memory: Seq<u8>, addr: nat) -> Result<Seq<u8>, Error>;

    fn sw(src: Self, memory: &mut [u8], addr: usize) -> (out: Result<(), Error>)
        ensures
            store_meets(
                out,
                old(memory)@,
                final(memory)@,
                Self::sw_spec(src, old(memory)@, addr as nat),
            ),
    ;
}

/// Stores eight bytes.
///
/// The store succeeds exactly where its bytes lie inside the memory; where it
/// fails, the memory is unchanged.
pub trait Sd: Sized {
    spec fn sd_spec(src: Self, memory: Seq<u8>, addr: nat) -> Result<Seq<u8>, Error>;

    fn sd(src: Self, memory: &mut [u8], addr: usize) -> (out: Result<(), Error>)
        ensures
            store_meets(
                out,
                old(memory)@,
                final(memory)@,
                Self::sd_spec(src, old(memory)@, addr as nat),
            ),
    ;
}

/// Stores the four bytes of a single-precision number: the low four bytes of the register.
///
/// The store succeeds exactly where its bytes lie inside the memory; where it
/// fails, the memory is unchanged.
pub trait Fsw: Sized {
    spec fn fsw_spec(src: Self, memory: Seq<u8>, addr: nat) -> Result<Seq<u8>, Error>;

    fn fsw(src: Self, memory: &mut [u8], addr: usize) -> (out: Result<(), Error>)
        ensures
            store_meets(
                out,
                old(memory)@,
                final(memory)@,
                Self::fsw_spec(src, old(memory)@, addr as nat),
            ),
    ;
}

/// All the integer loads.
pub trait BaseLoad: Lb + Lbu + Lh + Lhu + Lw + Lwu + Ld {
}

/// All the integer stores.
pub trait BaseStore: Sb + Sh + Sw + Sd {
}

impl Lb for u32 {
    open spec fn lb_spec(memory: Seq<u8>, addr: nat) -> Result<Self, Error> {
        if in_bounds(memory.len(), addr, 1) {
            Ok(wrap32(as_signed(8, memory[addr as int] as nat)))
        } else {
            Err(Error::InvalidOpCode)
        }
    }

    fn lb(memory: &[u8], addr: usize) -> (out: Result<Self, Error>)
        ensures
            out == Self::lb_spec(memory@, addr as nat),
    {
        match read::<i8>(memory, addr) {
            Ok(value) => Ok(As::<u32>::cast(value)),
            Err(e) => Err(e),
        }
    }
}

impl Lbu for u32 {
    open spec fn lbu_spec(memory: Seq<u8>, addr: nat) -> Result<Self, Error> {
        if in_bounds(memory.len(), addr, 1) {
            Ok(memory[addr as int] as u32)
        } else {
            Err(Error::InvalidOpCode)
        }
    }

    fn lbu(memory: &[u8], addr: usize) -> (out: Result<Self, Error>)
        ensures
            out == Self::lbu_spec(memory@, addr as nat),
    {
        match read::<u8>(memory, addr) {
            Ok(value) => Ok(As::<u32>::cast(value)),
            Err(e) => Err(e),
        }
    }
}

impl Lh for u32 {
    open spec fn lh_spec(memory: Seq<u8>, addr: nat) -> Result<Self, Error> {
        if in_bounds(memory.len(), addr, 2) {
            Ok(wrap32(as_signed(16, le16(read_bytes(memory, addr as int, 2)))))
        } else {
            Err(Error::InvalidOpCode)
        }
    }

    fn lh(memory: &[u8], addr: usize) -> (out: Result<Self, Error>)
        ensures
            out == Self::lh_spec(memory@, addr as nat),
    {
        match read::<I16>(memory, addr) {
            Ok(value) => Ok(As::<u32>::cast(value.as_i16())),
            Err(e) => Err(e),
        }
    }
}

impl Lhu for u32 {
    open spec fn lhu_spec(memory: Seq<u8>, addr: nat) -> Result<Self, Error> {
        if in_bounds(memory.len(), addr, 2) {
            Ok(le16(read_bytes(memory, addr as int, 2)) as u32)
        } else {
            Err(Error::InvalidOpCode)
        }
    }

    fn lhu(memory: &[u8], addr: usize) -> (out: Result<Self, Error>)
        ensures
            out == Self::lhu_spec(memory@, addr as nat),
    {
        match read::<U16>(memory, addr) {
            Ok(value) => Ok(As::<u32>::cast(value.as_u16())),
            Err(e) => Err(e),
        }
    }
}

impl Lb for u64 {
    open spec fn lb_spec(memory: Seq<u8>, addr: nat) -> Result<Self, Error> {
        if in_bounds(memory.len(), addr, 1) {
            Ok(wrap64(as_signed(8, memory[addr as int] as nat)))
        } else {
            Err(Error::InvalidOpCode)
        }
    }

    fn lb(memory: &[u8], addr: usize) -> (out: Result<Self, Error>)
        ensures
            out == Self::lb_spec(memory@, addr as nat),
    {
        match read::<i8>(memory, addr) {
            Ok(value) => Ok(As::<u64>::cast(value)),
            Err(e) => Err(e),
        }
    }
}

impl Lbu for u64 {
    open spec fn lbu_spec(memory: Seq<u8>, addr: nat) -> Result<Self, Error> {
        if in_bounds(memory.len(), addr, 1) {
            Ok(memory[addr as int] as u64)
        } else {
            Err(Error::InvalidOpCode)
        }
    }

    fn lbu(memory: &[u8], addr: usize) -> (out: Result<Self, Error>)
        ensures
            out == Self::lbu_spec(memory@, addr as nat),
    {
        match read::<u8>(memory, addr) {
            Ok(value) => Ok(As::<u64>::cast(value)),
            Err(e) => Err(e),
        }
    }
}

impl Lh for u64 {
    open spec fn lh_spec(memory: Seq<u8>, addr: nat) -> Result<Self, Error> {
        if in_bounds(memory.len(), addr, 2) {
            Ok(wrap64(as_signed(16, le16(read_bytes(memory, addr as int, 2)))))
        } else {
            Err(Error::InvalidOpCode)
        }
    }

    fn lh(memory: &[u8], addr: usize) -> (out: Result<Self, Error>)
        ensures
            out == Self::lh_spec(memory@, addr as nat),
    {
        match read::<I16>(memory, addr) {
            Ok(value) => Ok(As::<u64>::cast(value.as_i16())),
            Err(e) => Err(e),
        }
    }
}

impl Lhu for u64 {
    open spec fn lhu_spec(memory: Seq<u8>, addr: nat) -> Result<Self, Error> {
        if in_bounds(memory.len(), addr, 2) {
            Ok(le16(read_bytes(memory, addr as int, 2)) as u64)
        } else {
            Err(Error::InvalidOpCode)
        }
    }

    fn lhu(memory: &[u8], addr: usize) -> (out: Result<Self, Error>)
        ensures
            out == Self::lhu_spec(memory@, addr as nat),
    {
        match read::<U16>(memory, addr) {
            Ok(value) => Ok(As::<u64>::cast(value.as_u16())),
            Err(e) => Err(e),
        }
    }
}

impl Lw for u32 {
    open spec fn lw_spec(memory: Seq<u8>, addr: nat) -> Result<Self, Error> {
        if in_bounds(memory.len(), addr, 4) {
            Ok(le32(read_bytes(memory, addr as int, 4)) as u32)
        } else {
            Err(Error::InvalidOpCode)
        }
    }

    fn lw(memory: &[u8], addr: usize) -> (out: Result<Self, Error>)
        ensures
            out == Self::lw_spec(memory@, addr as nat),
    {
        match read::<U32>(memory, addr) {
            Ok(value) => Ok(value.as_u32()),
            Err(e) => Err(e),
        }
    }
}

impl Lw for u64 {
    open spec fn lw_spec(memory: Seq<u8>, addr: nat) -> Result<Self, Error> {
        if in_bounds(memory.len(), addr, 4) {
            Ok(wrap64(as_signed(32, le32(read_bytes(memory, addr as int, 4)))))
        } else {
            Err(Error::InvalidOpCode)
        }
    }

    fn lw(memory: &[u8], addr: usize) -> (out: Result<Self, Error>)
        ensures
            out == Self::lw_spec(memory@, addr as nat),
    {
        match read::<I32>(memory, addr) {
            Ok(value) => Ok(As::<u64>::cast(value.as_i32())),
            Err(e) => Err(e),
        }
    }
}

impl Lwu for u64 {
    open spec fn lwu_spec(memory: Seq<u8>, addr: nat) -> Result<Self, Error> {
        if in_bounds(memory.len(), addr, 4) {
            Ok(le32(read_bytes(memory, addr as int, 4)) as u64)
        } else {
            Err(Error::InvalidOpCode)
        }
    }

    fn lwu(memory: &[u8], addr: usize) -> (out: Result<Self, Error>)
        ensures
            out == Self::lwu_spec(memory@, addr as nat),
    {
        match read::<U32>(memory, addr) {
            Ok(value) => Ok(As::<u64>::cast(value.as_u32())),
            Err(e) => Err(e),
        }
    }
}

impl Ld for u64 {
    open spec fn ld_spec(memory: Seq<u8>, addr: nat) -> Result<Self, Error> {
        if in_bounds(memory.len(), addr, 8) {
            Ok(le64(read_bytes(memory, addr as int, 8)) as u64)
        } else {
            Err(Error::InvalidOpCode)
        }
    }

    fn ld(memory: &[u8], addr: usize) -> (out: Result<Self, Error>)
        ensures
            out == Self::ld_spec(memory@, addr as nat),
    {
        match read::<U64>(memory, addr) {
            Ok(value) => Ok(value.as_u64()),
            Err(e) => Err(e),
        }
    }
}

impl Flw for u32 {
    open spec fn flw_spec(memory: Seq<u8>, addr: nat) -> Result<Self, Error> {
        if in_bounds(memory.len(), addr, 4) {
            Ok(le32(read_bytes(memory, addr as int, 4)) as u32)
        } else {
            Err(Error::InvalidOpCode)
        }
    }

    fn flw(memory: &[u8], addr: usize) -> (out: Result<Self, Error>)
        ensures
            out == Self::flw_spec(memory@, addr as nat),
    {
        match read::<U32>(memory, addr) {
            Ok(value) => Ok(value.as_u32()),
            Err(e) => Err(e),
        }
    }
}

impl Flw for u64 {
    open spec fn flw_spec(memory: Seq<u8>, addr: nat) -> Result<Self, Error> {
        if in_bounds(memory.len(), addr, 4) {
            Ok(le32(read_bytes(memory, addr as int, 4)) as u64)
        } else {
            Err(Error::InvalidOpCode)
        }
    }

    fn flw(memory: &[u8], addr: usize) -> (out: Result<Self, Error>)
        ensures
            out == Self::flw_spec(memory@, addr as nat),
    {
        match read::<U32>(memory, addr) {
            Ok(value) => Ok(As::<u64>::cast(value.as_u32())),
            Err(e) => Err(e),
        }
    }
}

impl Sb for u32 {
    open spec fn sb_spec(src: Self, memory: Seq<u8>, addr: nat) -> Result<Seq<u8>, Error> {
        store_result(memory, addr, seq![(src % 0x100) as u8])
    }

    fn sb(src: Self, memory: &mut [u8], addr: usize) -> (out: Result<(), Error>)
        ensures
            store_meets(
                out,
                old(memory)@,
                final(memory)@,
                Self::sb_spec(src, old(memory)@, addr as nat),
            ),
    {
        crate::mem::write(&As::<u8>::cast(src), memory, addr)
    }
}

impl Sh for u32 {
    open spec fn sh_spec(src: Self, memory: Seq<u8>, addr: nat) -> Result<Seq<u8>, Error> {
        store_result(memory, addr, le_bytes16((src % 0x1_0000) as u16))
    }

    fn sh(src: Self, memory: &mut [u8], addr: usize) -> (out: Result<(), Error>)
        ensures
            store_meets(
                out,
                old(memory)@,
                final(memory)@,
                Self::sh_spec(src, old(memory)@, addr as nat),
            ),
    {
        crate::mem::write(&U16::new(As::<u16>::cast(src)), memory, addr)
    }
}

impl Sb for u64 {
    open spec fn sb_spec(src: Self, memory: Seq<u8>, addr: nat) -> Result<Seq<u8>, Error> {
        store_result(memory, addr, seq![(src % 0x100) as u8])
    }

    fn sb(src: Self, memory: &mut [u8], addr: usize) -> (out: Result<(), Error>)
        ensures
            store_meets(
                out,
                old(memory)@,
                final(memory)@,
                Self::sb_spec(src, old(memory)@, addr as nat),
            ),
    {
        crate::mem::write(&As::<u8>::cast(src), memory, addr)
    }
}

impl Sh for u64 {
    open spec fn sh_spec(src: Self, memory: Seq<u8>, addr: nat) -> Result<Seq<u8>, Error> {
        store_result(memory, addr, le_bytes16((src % 0x1_0000) as u16))
    }

    fn sh(src: Self, memory: &mut [u8], addr: usize) -> (out: Result<(), Error>)
        ensures
            store_meets(
                out,
                old(memory)@,
                final(memory)@,
                Self::sh_spec(src, old(memory)@, addr as nat),
            ),
    {
        crate::mem::write(&U16::new(As::<u16>::cast(src)), memory, addr)
    }
}

impl Sw for u32 {
    open spec fn sw_spec(src: Self, memory: Seq<u8>, addr: nat) -> Result<Seq<u8>, Error> {
        store_result(memory, addr, le_bytes32(src))
    }

    fn sw(src: Self, memory: &mut [u8], addr: usize) -> (out: Result<(), Error>)
        ensures
            store_meets(
                out,
                old(memory)@,
                final(memory)@,
                Self::sw_spec(src, old(memory)@, addr as nat),
            ),
    {
        crate::mem::write(&U32::new(src), memory, addr)
    }
}

impl Sw for u64 {
    open spec fn sw_spec(src: Self, memory: Seq<u8>, addr: nat) -> Result<Seq<u8>, Error> {
        store_result(memory, addr, le_bytes32((src % 0x1_0000_0000) as u32))
    }

    fn sw(src: Self, memory: &mut [u8], addr: usize) -> (out: Result<(), Error>)
        ensures
            store_meets(
                out,
                old(memory)@,
                final(memory)@,
                Self::sw_spec(src, old(memory)@, addr as nat),
            ),
    {
        crate::mem::write(&U32::new(As::<u32>::cast(src)), memory, addr)
    }
}

impl Sd for u64 {
    open spec fn sd_spec(src: Self, memory: Seq<u8>, addr: nat) -> Result<Seq<u8>, Error> {
        store_result(memory, addr, le_bytes64(src))
    }

    fn sd(src: Self, memory: &mut [u8], addr: usize) -> (out: Result<(), Error>)
        ensures
            store_meets(
                out,
                old(memory)@,
                final(memory)@,
                Self::sd_spec(src, old(memory)@, addr as nat),
            ),
    {
        crate::mem::write(&U64::new(src), memory, addr)
    }
}

impl Fsw for u32 {
    open spec fn fsw_spec(src: Self, memory: Seq<u8>, addr: nat) -> Result<Seq<u8>, Error> {
        store_result(memory, addr, le_bytes32(src))
    }

    fn fsw(src: Self, memory: &mut [u8], addr: usize) -> (out: Result<(), Error>)
        ensures
            store_meets(
                out,
                old(memory)@,
                final(memory)@,
                Self::fsw_spec(src, old(memory)@, addr as nat),
            ),
    {
        crate::mem::write(&U32::new(src), memory, addr)
    }
}

impl Fsw for u64 {
    open spec fn fsw_spec(src: Self, memory: Seq<u8>, addr: nat) -> Result<Seq<u8>, Error> {
        store_result(memory, addr, le_bytes32((src % 0x1_0000_0000) as u32))
    }

    fn fsw(src: Self, memory: &mut [u8], addr: usize) -> (out: Result<(), Error>)
        ensures
            store_meets(
                out,
                old(memory)@,
                final(memory)@,
                Self::fsw_spec(src, old(memory)@, addr as nat),
            ),
    {
        crate::mem::write(&U32::new(As::<u32>::cast(src)), memory, addr)
    }
}

impl BaseLoad for u64 {
}

impl BaseStore for u64 {
}

} // verus!
