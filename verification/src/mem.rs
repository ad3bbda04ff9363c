use crate::error::Error;
use vstd::prelude::*;

verus! {

/// Memory after `bytes` have been written at `addr`: the bytes stand at
/// `addr` and after it, and every other byte is as before.
pub open spec fn write_bytes(memory: Seq<u8>, addr: int, bytes: Seq<u8>) -> Seq<u8> {
    Seq::new(
        memory.len(),
        |i: int|
            if addr <= i < addr + bytes.len() {
                bytes[i - addr]
            } else {
                memory[i]
            },
    )
}

/// The `size` bytes of memory that start at `addr`.
pub open spec fn read_bytes(memory: Seq<u8>, addr: int, size: nat) -> Seq<u8> {
    memory.subrange(addr, addr + size)
}

/// The access of `size` bytes at `addr` lies inside a memory of `len` bytes.
pub open spec fn in_bounds(len: nat, addr: nat, size: nat) -> bool {
    addr + size <= len
}

/// The number that 2 bytes hold in little-endian order.
pub open spec fn le16(bytes: Seq<u8>) -> nat
    recommends
        bytes.len() == 2,
{
    bytes[0] as nat + bytes[1] as nat * 0x100
}

/// The 2 bytes that hold `value` in little-endian order.
pub open spec fn le_bytes16(value: u16) -> Seq<u8> {
    seq![
        (value % 256) as u8,
        (value / 0x100) as u8,
    ]
}

/// The number that 4 bytes hold in little-endian order.
pub open spec fn le32(bytes: Seq<u8>) -> nat
    recommends
        bytes.len() == 4,
{
    bytes[0] as nat + bytes[1] as nat * 0x100 + bytes[2] as nat * 0x1_0000
        + bytes[3] as nat * 0x100_0000
}

/// The 4 bytes that hold `value` in little-endian order.
pub open spec fn le_bytes32(value: u32) -> Seq<u8> {
    seq![
        (value % 256) as u8,
        ((value / 0x100) % 256) as u8,
        ((value / 0x1_0000) % 256) as u8,
        (value / 0x100_0000) as u8,
    ]
}

/// The number that 8 bytes hold in little-endian order.
pub open spec fn le64(bytes: Seq<u8>) -> nat
    recommends
        bytes.len() == 8,
{
    bytes[0] as nat + bytes[1] as nat * 0x100 + bytes[2] as nat * 0x1_0000
        + bytes[3] as nat * 0x100_0000 + bytes[4] as nat * 0x1_0000_0000
        + bytes[5] as nat * 0x100_0000_0000 + bytes[6] as nat * 0x1_0000_0000_0000
        + bytes[7] as nat * 0x100_0000_0000_0000
}

/// The 8 bytes that hold `value` in little-endian order.
pub open spec fn le_bytes64(value: u64) -> Seq<u8> {
    seq![
        (value % 256) as u8,
        ((value / 0x100) % 256) as u8,
        ((value / 0x1_0000) % 256) as u8,
        ((value / 0x100_0000) % 256) as u8,
        ((value / 0x1_0000_0000) % 256) as u8,
        ((value / 0x100_0000_0000) % 256) as u8,
        ((value / 0x1_0000_0000_0000) % 256) as u8,
        (value / 0x100_0000_0000_0000) as u8,
    ]
}

/// The signed number with the bit pattern of an unsigned one of `bits` bits.
pub open spec fn as_signed(bits: nat, value: nat) -> int
    recommends
        bits >= 1,
        value < crate::two_to(bits),
{
    if value < crate::two_to((bits - 1) as nat) {
        value as int
    } else {
        value - crate::two_to(bits)
    }
}

/// The unsigned number of `bits` bits with the bit pattern of a signed one.
pub open spec fn as_unsigned(bits: nat, value: int) -> nat
    recommends
        bits >= 1,
{
    if value >= 0 {
        value as nat
    } else {
        (value + crate::two_to(bits)) as nat
    }
}

/// Plain data that memory holds as a fixed number of bytes, in little-endian
/// order.
pub trait Pod: Sized {
    /// The number of bytes of a value.
    spec fn size_spec() -> nat;

    /// The value that `bytes` hold.
    spec fn from_bytes_spec(bytes: Seq<u8>) -> Self;

    /// The bytes that hold the value.
    spec fn to_bytes_spec(self) -> Seq<u8>;

    fn size() -> (out: usize)
        ensures
            out == Self::size_spec(),
    ;

    /// Reads a value from the bytes at `addr`.
    fn load(src: &[u8], addr: usize) -> (out: Self)
        requires
            in_bounds(src@.len(), addr as nat, Self::size_spec()),
        ensures
            out == Self::from_bytes_spec(read_bytes(src@, addr as int, Self::size_spec())),
    ;

    /// Writes the value to the bytes at `addr`.
    fn store(&self, dest: &mut [u8], addr: usize)
        requires
            in_bounds(old(dest)@.len(), addr as nat, Self::size_spec()),
        ensures
            final(dest)@ == write_bytes(old(dest)@, addr as int, self.to_bytes_spec()),
    ;
}

impl Pod for u8 {
    open spec fn size_spec() -> nat {
        1
    }

    open spec fn from_bytes_spec(bytes: Seq<u8>) -> Self {
        bytes[0]
    }

    open spec fn to_bytes_spec(self) -> Seq<u8> {
        seq![self]
    }

    fn size() -> (out: usize)
        ensures
            out == Self::size_spec(),
    {
        1
    }

    fn load(src: &[u8], addr: usize) -> (out: Self)
        ensures
            out == Self::from_bytes_spec(read_bytes(src@, addr as int, Self::size_spec())),
    {
        src[addr]
    }

    fn store(&self, dest: &mut [u8], addr: usize)
        ensures
            final(dest)@ == write_bytes(old(dest)@, addr as int, self.to_bytes_spec()),
    {
        dest[addr] = *self;
        assert(dest@ =~= write_bytes(old(dest)@, addr as int, self.to_bytes_spec()));
    }
}

impl Pod for i8 {
    open spec fn size_spec() -> nat {
        1
    }

    open spec fn from_bytes_spec(bytes: Seq<u8>) -> Self {
        as_signed(8, bytes[0] as nat) as i8
    }

    open spec fn to_bytes_spec(self) -> Seq<u8> {
        seq![as_unsigned(8, self as int) as u8]
    }

    fn size() -> (out: usize)
        ensures
            out == Self::size_spec(),
    {
        1
    }

    fn load(src: &[u8], addr: usize) -> (out: Self)
        ensures
            out == Self::from_bytes_spec(read_bytes(src@, addr as int, Self::size_spec())),
    {
        let raw: u8 = src[addr];
        if raw < 128 {
            raw as i8
        } else {
            let low: i8 = (raw - 128) as i8;
            low + i8::MIN
        }
    }

    fn store(&self, dest: &mut [u8], addr: usize)
        ensures
            final(dest)@ == write_bytes(old(dest)@, addr as int, self.to_bytes_spec()),
    {
        let raw: u8 = if *self >= 0 {
            *self as u8
        } else {
            let low: u8 = (*self - i8::MIN) as u8;
            low + 128
        };
        dest[addr] = raw;
        assert(dest@ =~= write_bytes(old(dest)@, addr as int, self.to_bytes_spec()));
    }
}

/// A value of type `i16` as memory holds it.
#[derive(Clone, Copy, Debug)]
pub struct I16(pub i16);

impl I16 {
    pub fn new(value: i16) -> (out: Self)
        ensures
            out.0 == value,
    {
        I16(value)
    }

    pub fn as_i16(&self) -> (out: i16)
        ensures
            out == self.0,
    {
        self.0
    }
}

impl Pod for I16 {
    open spec fn size_spec() -> nat {
        2
    }

    open spec fn from_bytes_spec(bytes: Seq<u8>) -> Self {
        I16(as_signed(16, le16(bytes)) as i16)
    }

    open spec fn to_bytes_spec(self) -> Seq<u8> {
        le_bytes16(as_unsigned(16, self.0 as int) as u16)
    }

    fn size() -> (out: usize)
        ensures
            out == Self::size_spec(),
    {
        2
    }

    fn load(src: &[u8], addr: usize) -> (out: Self)
        ensures
            out == Self::from_bytes_spec(read_bytes(src@, addr as int, Self::size_spec())),
    {
        let raw: u16 = src[addr] as u16 + src[addr + 1] as u16 * 0x100;
        if raw < 0x8000 {
            I16(raw as i16)
        } else {
            let low: i16 = (raw - 0x8000) as i16;
            I16(low + i16::MIN)
        }
    }

    fn store(&self, dest: &mut [u8], addr: usize)
        ensures
            final(dest)@ == write_bytes(old(dest)@, addr as int, self.to_bytes_spec()),
    {
        let value: u16 = if self.0 >= 0 {
            self.0 as u16
        } else {
            let low: u16 = (self.0 - i16::MIN) as u16;
            low + 0x8000
        };
        dest[addr] = (value % 256) as u8;
        dest[addr + 1] = (value / 0x100) as u8;
        assert(dest@ =~= write_bytes(old(dest)@, addr as int, self.to_bytes_spec()));
    }
}

/// A value of type `u16` as memory holds it.
#[derive(Clone, Copy, Debug)]
pub struct U16(pub u16);

impl U16 {
    pub fn new(value: u16) -> (out: Self)
        ensures
            out.0 == value,
    {
        U16(value)
    }

    pub fn as_u16(&self) -> (out: u16)
        ensures
            out == self.0,
    {
        self.0
    }
}

impl Pod for U16 {
    open spec fn size_spec() -> nat {
        2
    }

    open spec fn from_bytes_spec(bytes: Seq<u8>) -> Self {
        U16(le16(bytes) as u16)
    }

    open spec fn to_bytes_spec(self) -> Seq<u8> {
        le_bytes16(self.0)
    }

    fn size() -> (out: usize)
        ensures
            out == Self::size_spec(),
    {
        2
    }

    fn load(src: &[u8], addr: usize) -> (out: Self)
        ensures
            out == Self::from_bytes_spec(read_bytes(src@, addr as int, Self::size_spec())),
    {
        let raw: u16 = src[addr] as u16 + src[addr + 1] as u16 * 0x100;
        U16(raw)
    }

    fn store(&self, dest: &mut [u8], addr: usize)
        ensures
            final(dest)@ == write_bytes(old(dest)@, addr as int, self.to_bytes_spec()),
    {
        let value: u16 = self.0;
        dest[addr] = (value % 256) as u8;
        dest[addr + 1] = (value / 0x100) as u8;
        assert(dest@ =~= write_bytes(old(dest)@, addr as int, self.to_bytes_spec()));
    }
}

/// A value of type `i32` as memory holds it.
#[derive(Clone, Copy, Debug)]
pub struct I32(pub i32);

impl I32 {
    pub fn new(value: i32) -> (out: Self)
        ensures
            out.0 == value,
    {
        I32(value)
    }

    pub fn as_i32(&self) -> (out: i32)
        ensures
            out == self.0,
    {
        self.0
    }
}

impl Pod for I32 {
    open spec fn size_spec() -> nat {
        4
    }

    open spec fn from_bytes_spec(bytes: Seq<u8>) -> Self {
        I32(as_signed(32, le32(bytes)) as i32)
    }

    open spec fn to_bytes_spec(self) -> Seq<u8> {
        le_bytes32(as_unsigned(32, self.0 as int) as u32)
    }

    fn size() -> (out: usize)
        ensures
            out == Self::size_spec(),
    {
        4
    }

    fn load(src: &[u8], addr: usize) -> (out: Self)
        ensures
            out == Self::from_bytes_spec(read_bytes(src@, addr as int, Self::size_spec())),
    {
        let raw: u32 = src[addr] as u32 + src[addr + 1] as u32 * 0x100 + src[addr
            + 2] as u32 * 0x1_0000 + src[addr + 3] as u32 * 0x100_0000;
        if raw < 0x8000_0000 {
            I32(raw as i32)
        } else {
            let low: i32 = (raw - 0x8000_0000) as i32;
            I32(low + i32::MIN)
        }
    }

    fn store(&self, dest: &mut [u8], addr: usize)
        ensures
            final(dest)@ == write_bytes(old(dest)@, addr as int, self.to_bytes_spec()),
    {
        let value: u32 = if self.0 >= 0 {
            self.0 as u32
        } else {
            let low: u32 = (self.0 - i32::MIN) as u32;
            low + 0x8000_0000
        };
        dest[addr] = (value % 256) as u8;
        dest[addr + 1] = ((value / 0x100) % 256) as u8;
        dest[addr + 2] = ((value / 0x1_0000) % 256) as u8;
        dest[addr + 3] = (value / 0x100_0000) as u8;
        assert(dest@ =~= write_bytes(old(dest)@, addr as int, self.to_bytes_spec()));
    }
}

/// A value of type `u32` as memory holds it.
#[derive(Clone, Copy, Debug)]
pub struct U32(pub u32);

impl U32 {
    pub fn new(value: u32) -> (out: Self)
        ensures
            out.0 == value,
    {
        U32(value)
    }

    pub fn as_u32(&self) -> (out: u32)
        ensures
            out == self.0,
    {
        self.0
    }
}

impl Pod for U32 {
    open spec fn size_spec() -> nat {
        4
    }

    open spec fn from_bytes_spec(bytes: Seq<u8>) -> Self {
        U32(le32(bytes) as u32)
    }

    open spec fn to_bytes_spec(self) -> Seq<u8> {
        le_bytes32(self.0)
    }

    fn size() -> (out: usize)
        ensures
            out == Self::size_spec(),
    {
        4
    }

    fn load(src: &[u8], addr: usize) -> (out: Self)
        ensures
            out == Self::from_bytes_spec(read_bytes(src@, addr as int, Self::size_spec())),
    {
        let raw: u32 = src[addr] as u32 + src[addr + 1] as u32 * 0x100 + src[addr
            + 2] as u32 * 0x1_0000 + src[addr + 3] as u32 * 0x100_0000;
        U32(raw)
    }

    fn store(&self, dest: &mut [u8], addr: usize)
        ensures
            final(dest)@ == write_bytes(old(dest)@, addr as int, self.to_bytes_spec()),
    {
        let value: u32 = self.0;
        dest[addr] = (value % 256) as u8;
        dest[addr + 1] = ((value / 0x100) % 256) as u8;
        dest[addr + 2] = ((value / 0x1_0000) % 256) as u8;
        dest[addr + 3] = (value / 0x100_0000) as u8;
        assert(dest@ =~= write_bytes(old(dest)@, addr as int, self.to_bytes_spec()));
    }
}

/// A value of type `i64` as memory holds it.
#[derive(Clone, Copy, Debug)]
pub struct I64(pub i64);

impl I64 {
    pub fn new(value: i64) -> (out: Self)
        ensures
            out.0 == value,
    {
        I64(value)
    }

    pub fn as_i64(&self) -> (out: i64)
        ensures
            out == self.0,
    {
        self.0
    }
}

impl Pod for I64 {
    open spec fn size_spec() -> nat {
        8
    }

    open spec fn from_bytes_spec(bytes: Seq<u8>) -> Self {
        I64(as_signed(64, le64(bytes)) as i64)
    }

    open spec fn to_bytes_spec(self) -> Seq<u8> {
        le_bytes64(as_unsigned(64, self.0 as int) as u64)
    }

    fn size() -> (out: usize)
        ensures
            out == Self::size_spec(),
    {
        8
    }

    fn load(src: &[u8], addr: usize) -> (out: Self)
        ensures
            out == Self::from_bytes_spec(read_bytes(src@, addr as int, Self::size_spec())),
    {
        let raw: u64 = src[addr] as u64 + src[addr + 1] as u64 * 0x100 + src[addr
            + 2] as u64 * 0x1_0000 + src[addr + 3] as u64 * 0x100_0000 + src[addr
            + 4] as u64 * 0x1_0000_0000 + src[addr + 5] as u64 * 0x100_0000_0000 + src[addr
            + 6] as u64 * 0x1_0000_0000_0000 + src[addr + 7] as u64 * 0x100_0000_0000_0000;
        if raw < 0x8000_0000_0000_0000 {
            I64(raw as i64)
        } else {
            let low: i64 = (raw - 0x8000_0000_0000_0000) as i64;
            I64(low + i64::MIN)
        }
    }

    fn store(&self, dest: &mut [u8], addr: usize)
        ensures
            final(dest)@ == write_bytes(old(dest)@, addr as int, self.to_bytes_spec()),
    {
        let value: u64 = if self.0 >= 0 {
            self.0 as u64
        } else {
            let low: u64 = (self.0 - i64::MIN) as u64;
            low + 0x8000_0000_0000_0000
        };
        dest[addr] = (value % 256) as u8;
        dest[addr + 1] = ((value / 0x100) % 256) as u8;
        dest[addr + 2] = ((value / 0x1_0000) % 256) as u8;
        dest[addr + 3] = ((value / 0x100_0000) % 256) as u8;
        dest[addr + 4] = ((value / 0x1_0000_0000) % 256) as u8;
        dest[addr + 5] = ((value / 0x100_0000_0000) % 256) as u8;
        dest[addr + 6] = ((value / 0x1_0000_0000_0000) % 256) as u8;
        dest[addr + 7] = (value / 0x100_0000_0000_0000) as u8;
        assert(dest@ =~= write_bytes(old(dest)@, addr as int, self.to_bytes_spec()));
    }
}

/// A value of type `u64` as memory holds it.
#[derive(Clone, Copy, Debug)]
pub struct U64(pub u64);

impl U64 {
    pub fn new(value: u64) -> (out: Self)
        ensures
            out.0 == value,
    {
        U64(value)
    }

    pub fn as_u64(&self) -> (out: u64)
        ensures
            out == self.0,
    {
        self.0
    }
}

impl Pod for U64 {
    open spec fn size_spec() -> nat {
        8
    }

    open spec fn from_bytes_spec(bytes: Seq<u8>) -> Self {
        U64(le64(bytes) as u64)
    }

    open spec fn to_bytes_spec(self) -> Seq<u8> {
        le_bytes64(self.0)
    }

    fn size() -> (out: usize)
        ensures
            out == Self::size_spec(),
    {
        8
    }

    fn load(src: &[u8], addr: usize) -> (out: Self)
        ensures
            out == Self::from_bytes_spec(read_bytes(src@, addr as int, Self::size_spec())),
    {
        let raw: u64 = src[addr] as u64 + src[addr + 1] as u64 * 0x100 + src[addr
            + 2] as u64 * 0x1_0000 + src[addr + 3] as u64 * 0x100_0000 + src[addr
            + 4] as u64 * 0x1_0000_0000 + src[addr + 5] as u64 * 0x100_0000_0000 + src[addr
            + 6] as u64 * 0x1_0000_0000_0000 + src[addr + 7] as u64 * 0x100_0000_0000_0000;
        U64(raw)
    }

    fn store(&self, dest: &mut [u8], addr: usize)
        ensures
            final(dest)@ == write_bytes(old(dest)@, addr as int, self.to_bytes_spec()),
    {
        let value: u64 = self.0;
        dest[addr] = (value % 256) as u8;
        dest[addr + 1] = ((value / 0x100) % 256) as u8;
        dest[addr + 2] = ((value / 0x1_0000) % 256) as u8;
        dest[addr + 3] = ((value / 0x100_0000) % 256) as u8;
        dest[addr + 4] = ((value / 0x1_0000_0000) % 256) as u8;
        dest[addr + 5] = ((value / 0x100_0000_0000) % 256) as u8;
        dest[addr + 6] = ((value / 0x1_0000_0000_0000) % 256) as u8;
        dest[addr + 7] = (value / 0x100_0000_0000_0000) as u8;
        assert(dest@ =~= write_bytes(old(dest)@, addr as int, self.to_bytes_spec()));
    }
}

/// Reads a value of type `T` from the bytes at `addr`.
///
/// The read succeeds exactly where its bytes lie inside `src`.
pub fn read<T: Pod>(src: &[u8], addr: usize) -> (out: Result<T, Error>)
    ensures
        out.is_ok() <==> in_bounds(src@.len(), addr as nat, T::size_spec()),
        out matches Ok(value) ==> value == T::from_bytes_spec(
            read_bytes(src@, addr as int, T::size_spec()),
        ),
        out matches Err(e) ==> e == Error::InvalidOpCode,
{
    let size: usize = T::size();
    if addr > src.len() || size > src.len() - addr {
        Err(Error::InvalidOpCode)
    } else {
        Ok(T::load(src, addr))
    }
}

/// Writes a value of type `T` to the bytes at `addr`.
///
/// The write succeeds exactly where its bytes lie inside `dest`; where it
/// fails, `dest` is unchanged.
pub fn write<T: Pod>(src: &T, dest: &mut [u8], addr: usize) -> (out: Result<(), Error>)
    ensures
        out.is_ok() <==> in_bounds(old(dest)@.len(), addr as nat, T::size_spec()),
        out.is_ok() ==> out == Ok::<(), Error>(()) && final(dest)@ == write_bytes(
            old(dest)@,
            addr as int,
            src.to_bytes_spec(),
        ),
        out matches Err(e) ==> e == Error::InvalidOpCode && final(dest)@ == old(dest)@,
{
    let size: usize = T::size();
    if addr > dest.len() || size > dest.len() - addr {
        Err(Error::InvalidOpCode)
    } else {
        src.store(dest, addr);
        Ok(())
    }
}

/// Copies the bytes of `src` into `dest`, starting at `addr`.
///
/// The copy succeeds exactly where all of it lies inside `dest`; where it
/// fails, `dest` is unchanged.
pub fn memw(src: &[u8], dest: &mut [u8], addr: usize) -> (out: Result<(), Error>)
    ensures
        out.is_ok() <==> in_bounds(old(dest)@.len(), addr as nat, src@.len()),
        out.is_ok() ==> out == Ok::<(), Error>(()) && final(dest)@ == write_bytes(
            old(dest)@,
            addr as int,
            src@,
        ),
        out matches Err(e) ==> e == Error::InvalidOpCode && final(dest)@ == old(dest)@,
{
    let count: usize = src.len();
    if addr > dest.len() || count > dest.len() - addr {
        return Err(Error::InvalidOpCode);
    }
    assert(dest@.len() == dest.len());
    let mut i: usize = 0;
    while i < count
        invariant
            i <= count,
            count == src@.len(),
            addr + count <= dest@.len() <= usize::MAX,
            dest@.len() == old(dest)@.len(),
            dest@ == write_bytes(old(dest)@, addr as int, src@.subrange(0, i as int)),
        decreases count - i,
    {
        dest[addr + i] = src[i];
        i = i + 1;
        assert(dest@ =~= write_bytes(old(dest)@, addr as int, src@.subrange(0, i as int)));
    }
    assert(src@.subrange(0, count as int) =~= src@);
    Ok(())
}

/// Reads the `N` bytes at `addr`.
///
/// The read succeeds exactly where its bytes lie inside `src`.
pub fn memr<const N: usize>(src: &[u8], addr: usize) -> (out: Result<[u8; N], Error>)
    ensures
        out.is_ok() <==> in_bounds(src@.len(), addr as nat, N as nat),
        out matches Ok(bytes) ==> bytes@ == read_bytes(src@, addr as int, N as nat),
        out matches Err(e) ==> e == Error::InvalidOpCode,
{
    if addr > src.len() || N > src.len() - addr {
        return Err(Error::InvalidOpCode);
    }
    assert(src@.len() == src.len());
    let mut bytes: [u8; N] = [0u8;N];
    let mut i: usize = 0;
    while i < N
        invariant
            i <= N,
            addr + N <= src@.len() <= usize::MAX,
            forall|j: int| 0 <= j < i ==> bytes@[j] == src@[addr + j],
        decreases N - i,
    {
        bytes[i] = src[addr + i];
        i = i + 1;
    }
    assert(bytes@ =~= read_bytes(src@, addr as int, N as nat));
    Ok(bytes)
}

/// Reads the four bytes at `addr`.
pub fn memr32(src: &[u8], addr: usize) -> (out: Result<[u8; 4], Error>)
    ensures
        out.is_ok() <==> in_bounds(src@.len(), addr as nat, 4),
        out matches Ok(bytes) ==> bytes@ == read_bytes(src@, addr as int, 4),
        out matches Err(e) ==> e == Error::InvalidOpCode,
{
    memr::<4>(src, addr)
}

/// Reads the two bytes at `addr`.
pub fn memr16(src: &[u8], addr: usize) -> (out: Result<[u8; 2], Error>)
    ensures
        out.is_ok() <==> in_bounds(src@.len(), addr as nat, 2),
        out matches Ok(bytes) ==> bytes@ == read_bytes(src@, addr as int, 2),
        out matches Err(e) ==> e == Error::InvalidOpCode,
{
    memr::<2>(src, addr)
}

/// Reads the byte at `addr`.
pub fn memr8(src: &[u8], addr: usize) -> (out: Result<u8, Error>)
    ensures
        out.is_ok() <==> in_bounds(src@.len(), addr as nat, 1),
        out matches Ok(byte) ==> byte == src@[addr as int],
        out matches Err(e) ==> e == Error::InvalidOpCode,
{
    match memr::<1>(src, addr) {
        Ok(bytes) => Ok(bytes[0]),
        Err(e) => Err(e),
    }
}

} // verus!
