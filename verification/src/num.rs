use vstd::prelude::*;

verus! {

/// An unsigned word type together with the signed type of the same width.
pub trait Unsigned: Bitcast<Self::Signed> + As<Self::Signed> + Sized {
    type Signed: Sized + Bitcast<Self> + As<Self>;
}

/// Numeric conversion between integer types, with the meaning of Rust's
/// integer casts: the value is kept where it fits and wraps where it does not.
pub trait As<Shr = Self>: Sized {
    spec fn cast_spec(self) -> Shr;

    fn cast(self) -> (out: Shr)
        ensures
            out == self.cast_spec(),
    ;
}

/// Reinterpretation of a bit pattern as the integer of the other signedness.
pub trait Bitcast<Shr = Self>: Sized {
    spec fn bitcast_spec(self) -> Shr;

    fn bitcast(self) -> (out: Shr)
        ensures
            out == self.bitcast_spec(),
    ;
}

/// Arithmetic that wraps around at the boundary of the type.
pub trait Wrapping: Sized {
    spec fn wrapping_add_spec(self, rhs: Self) -> Self;

    spec fn wrapping_sub_spec(self, rhs: Self) -> Self;

    spec fn wrapping_shl_spec(self, rhs: u32) -> Self;

    spec fn wrapping_shr_spec(self, rhs: u32) -> Self;

    spec fn wrapping_mul_spec(self, rhs: Self) -> Self;

    spec fn wrapping_div_spec(self, rhs: Self) -> Self;

    spec fn wrapping_rem_spec(self, rhs: Self) -> Self;

    spec fn is_zero_spec(self) -> bool;

    fn wrapping_add(self, rhs: Self) -> (out: Self)
        ensures
            out == self.wrapping_add_spec(rhs),
    ;

    fn wrapping_sub(self, rhs: Self) -> (out: Self)
        ensures
            out == self.wrapping_sub_spec(rhs),
    ;

    fn wrapping_shl(self, rhs: u32) -> (out: Self)
        ensures
            out == self.wrapping_shl_spec(rhs),
    ;

    fn wrapping_shr(self, rhs: u32) -> (out: Self)
        ensures
            out == self.wrapping_shr_spec(rhs),
    ;

    fn wrapping_mul(self, rhs: Self) -> (out: Self)
        ensures
            out == self.wrapping_mul_spec(rhs),
    ;

    fn wrapping_div(self, rhs: Self) -> (out: Self)
        requires
            !rhs.is_zero_spec(),
        ensures
            out == self.wrapping_div_spec(rhs),
    ;

    fn wrapping_rem(self, rhs: Self) -> (out: Self)
        requires
            !rhs.is_zero_spec(),
        ensures
            out == self.wrapping_rem_spec(rhs),
    ;
}

/// Multiplication that keeps the whole product, as a low and a high half.
pub trait Widening: Sized {
    spec fn widening_mul_spec(self, rhs: Self) -> (Self, Self);

    fn widening_mul(self, rhs: Self) -> (out: (Self, Self))
        ensures
            out == self.widening_mul_spec(rhs),
    ;
}

/// Wrapping addition of a signed offset to an unsigned word.
pub trait UnsignedWrapping: Wrapping + Unsigned {
    spec fn wrapping_add_signed_spec(self, rhs: Self::Signed) -> Self;

    fn wrapping_add_signed(self, rhs: Self::Signed) -> (out: Self)
        ensures
            out == self.wrapping_add_signed_spec(rhs),
    ;
}

/// The signed integer with the bit pattern of `x`.
pub open spec fn signed32(x: u32) -> int {
    if x < 0x8000_0000 {
        x as int
    } else {
        x - 0x1_0000_0000
    }
}

/// The signed integer with the bit pattern of `x`.
pub open spec fn signed64(x: u64) -> int {
    if x < 0x8000_0000_0000_0000 {
        x as int
    } else {
        x - 0x1_0000_0000_0000_0000
    }
}

/// The 32-bit word that is congruent to `v` modulo 2^32.
pub open spec fn wrap32(v: int) -> u32 {
    (v % 0x1_0000_0000) as u32
}

/// The 64-bit word that is congruent to `v` modulo 2^64.
pub open spec fn wrap64(v: int) -> u64 {
    (v % 0x1_0000_0000_0000_0000) as u64
}

/// The absolute value of `v`.
pub open spec fn abs_int(v: int) -> int {
    if v >= 0 {
        v
    } else {
        -v
    }
}

/// Truncating signed quotient: the quotient of the absolute values, negative
/// where the operands differ in sign.
pub open spec fn trunc_div(a: int, b: int) -> int
    recommends
        b != 0,
{
    if (a >= 0) == (b > 0) {
        abs_int(a) / abs_int(b)
    } else {
        -(abs_int(a) / abs_int(b))
    }
}

/// Division by a negative divisor, stated through its absolute value.
pub proof fn lemma_negative_divisor(x: int, d: int)
    requires
        x >= 0,
        d < 0,
    ensures
        x / d == -(x / (-d)),
        x % d == x % (-d),
{
    let q = x / (-d);
    let r = x % (-d);
    lemma_quotient_bounds(x, -d);
    assert(x == d * (-q) + r) by (nonlinear_arith)
        requires
            x == (-d) * q + r,
    ;
    assert(x / d == -q && x % d == r) by (nonlinear_arith)
        requires
            x == d * (-q) + r,
            0 <= r < -d,
            d < 0,
    ;
}

/// A quotient of non-negative integers lies between zero and the dividend,
/// and the remainder below the divisor.
pub proof fn lemma_quotient_bounds(x: int, d: int)
    requires
        x >= 0,
        d > 0,
    ensures
        0 <= x / d <= x,
        0 <= x % d < d,
        x % d <= x,
        x == d * (x / d) + x % d,
{
    vstd::arithmetic::div_mod::lemma_fundamental_div_mod(x, d);
    vstd::arithmetic::div_mod::lemma_div_pos_is_pos(x, d);
    vstd::arithmetic::div_mod::lemma_mod_bound(x, d);
    assert(d * (x / d) >= x / d) by (nonlinear_arith)
        requires
            d >= 1,
            x / d >= 0,
    ;
}

/// Truncating signed remainder: it has the sign of the dividend.
pub open spec fn trunc_rem(a: int, b: int) -> int
    recommends
        b != 0,
{
    let magnitude = abs_int(a) % abs_int(b);
    if a >= 0 {
        magnitude
    } else {
        -magnitude
    }
}

impl Unsigned for u32 {
    type Signed = i32;
}

impl Unsigned for u64 {
    type Signed = i64;
}

impl Bitcast<i32> for u32 {
    open spec fn bitcast_spec(self) -> i32 {
        signed32(self) as i32
    }

    fn bitcast(self) -> (out: i32) {
        let out: i32 = if self < 0x8000_0000 {
            self as i32
        } else {
            let low: i32 = (self - 0x8000_0000) as i32;
            low + i32::MIN
        };
        assert(out == <Self as Bitcast<i32>>::bitcast_spec(self));
        out
    }
}

impl Bitcast<u32> for i32 {
    open spec fn bitcast_spec(self) -> u32 {
        wrap32(self as int)
    }

    fn bitcast(self) -> (out: u32) {
        let out: u32 = if self >= 0 {
            self as u32
        } else {
            let low: u32 = (self - i32::MIN) as u32;
            low + 0x8000_0000
        };
        assert(out == <Self as Bitcast<u32>>::bitcast_spec(self));
        out
    }
}

impl Bitcast<i64> for u64 {
    open spec fn bitcast_spec(self) -> i64 {
        signed64(self) as i64
    }

    fn bitcast(self) -> (out: i64) {
        let out: i64 = if self < 0x8000_0000_0000_0000 {
            self as i64
        } else {
            let low: i64 = (self - 0x8000_0000_0000_0000) as i64;
            low + i64::MIN
        };
        assert(out == <Self as Bitcast<i64>>::bitcast_spec(self));
        out
    }
}

impl Bitcast<u64> for i64 {
    open spec fn bitcast_spec(self) -> u64 {
        wrap64(self as int)
    }

    fn bitcast(self) -> (out: u64) {
        let out: u64 = if self >= 0 {
            self as u64
        } else {
            let low: u64 = (self - i64::MIN) as u64;
            low + 0x8000_0000_0000_0000
        };
        assert(out == <Self as Bitcast<u64>>::bitcast_spec(self));
        out
    }
}

impl As for u32 {
    open spec fn cast_spec(self) -> u32 {
        self
    }

    fn cast(self) -> (out: u32) {
        let out: u32 = self;
        assert(out == <Self as As<u32>>::cast_spec(self));
        out
    }
}

impl As for u64 {
    open spec fn cast_spec(self) -> u64 {
        self
    }

    fn cast(self) -> (out: u64) {
        let out: u64 = self;
        assert(out == <Self as As<u64>>::cast_spec(self));
        out
    }
}

impl As for i32 {
    open spec fn cast_spec(self) -> i32 {
        self
    }

    fn cast(self) -> (out: i32) {
        let out: i32 = self;
        assert(out == <Self as As<i32>>::cast_spec(self));
        out
    }
}

impl As for i64 {
    open spec fn cast_spec(self) -> i64 {
        self
    }

    fn cast(self) -> (out: i64) {
        let out: i64 = self;
        assert(out == <Self as As<i64>>::cast_spec(self));
        out
    }
}

impl As<i32> for u32 {
    open spec fn cast_spec(self) -> i32 {
        Bitcast::<i32>::bitcast_spec(self)
    }

    fn cast(self) -> (out: i32) {
        let out: i32 = Bitcast::<i32>::bitcast(self);
        assert(out == <Self as As<i32>>::cast_spec(self));
        out
    }
}

impl As<u32> for i32 {
    open spec fn cast_spec(self) -> u32 {
        Bitcast::<u32>::bitcast_spec(self)
    }

    fn cast(self) -> (out: u32) {
        let out: u32 = Bitcast::<u32>::bitcast(self);
        assert(out == <Self as As<u32>>::cast_spec(self));
        out
    }
}

impl As<i64> for u64 {
    open spec fn cast_spec(self) -> i64 {
        Bitcast::<i64>::bitcast_spec(self)
    }

    fn cast(self) -> (out: i64) {
        let out: i64 = Bitcast::<i64>::bitcast(self);
        assert(out == <Self as As<i64>>::cast_spec(self));
        out
    }
}

impl As<u64> for i64 {
    open spec fn cast_spec(self) -> u64 {
        Bitcast::<u64>::bitcast_spec(self)
    }

    fn cast(self) -> (out: u64) {
        let out: u64 = Bitcast::<u64>::bitcast(self);
        assert(out == <Self as As<u64>>::cast_spec(self));
        out
    }
}

impl As<u32> for u8 {
    open spec fn cast_spec(self) -> u32 {
        self as u32
    }

    fn cast(self) -> (out: u32) {
        let out: u32 = self as u32;
        assert(out == <Self as As<u32>>::cast_spec(self));
        out
    }
}

impl As<u64> for u8 {
    open spec fn cast_spec(self) -> u64 {
        self as u64
    }

    fn cast(self) -> (out: u64) {
        let out: u64 = self as u64;
        assert(out == <Self as As<u64>>::cast_spec(self));
        out
    }
}

impl As<u32> for u16 {
    open spec fn cast_spec(self) -> u32 {
        self as u32
    }

    fn cast(self) -> (out: u32) {
        let out: u32 = self as u32;
        assert(out == <Self as As<u32>>::cast_spec(self));
        out
    }
}

impl As<u64> for u16 {
    open spec fn cast_spec(self) -> u64 {
        self as u64
    }

    fn cast(self) -> (out: u64) {
        let out: u64 = self as u64;
        assert(out == <Self as As<u64>>::cast_spec(self));
        out
    }
}

impl As<u64> for u32 {
    open spec fn cast_spec(self) -> u64 {
        self as u64
    }

    fn cast(self) -> (out: u64) {
        let out: u64 = self as u64;
        assert(out == <Self as As<u64>>::cast_spec(self));
        out
    }
}

impl As<i32> for i16 {
    open spec fn cast_spec(self) -> i32 {
        self as i32
    }

    fn cast(self) -> (out: i32) {
        let out: i32 = self as i32;
        assert(out == <Self as As<i32>>::cast_spec(self));
        out
    }
}

impl As<i64> for i16 {
    open spec fn cast_spec(self) -> i64 {
        self as i64
    }

    fn cast(self) -> (out: i64) {
        let out: i64 = self as i64;
        assert(out == <Self as As<i64>>::cast_spec(self));
        out
    }
}

impl As<i64> for i32 {
    open spec fn cast_spec(self) -> i64 {
        self as i64
    }

    fn cast(self) -> (out: i64) {
        let out: i64 = self as i64;
        assert(out == <Self as As<i64>>::cast_spec(self));
        out
    }
}

impl As<u32> for bool {
    open spec fn cast_spec(self) -> u32 {
        if self {
            1
        } else {
            0
        }
    }

    fn cast(self) -> (out: u32) {
        let out: u32 = if self {
            1
        } else {
            0
        };
        assert(out == <Self as As<u32>>::cast_spec(self));
        out
    }
}

impl As<u64> for bool {
    open spec fn cast_spec(self) -> u64 {
        if self {
            1
        } else {
            0
        }
    }

    fn cast(self) -> (out: u64) {
        let out: u64 = if self {
            1
        } else {
            0
        };
        assert(out == <Self as As<u64>>::cast_spec(self));
        out
    }
}

impl As<u32> for u64 {
    open spec fn cast_spec(self) -> u32 {
        (self % 0x1_0000_0000) as u32
    }

    fn cast(self) -> (out: u32) {
        let out: u32 = (self % 0x1_0000_0000) as u32;
        assert(out == <Self as As<u32>>::cast_spec(self));
        out
    }
}

impl As<u32> for i16 {
    open spec fn cast_spec(self) -> u32 {
        wrap32(self as int)
    }

    fn cast(self) -> (out: u32) {
        let wide: i32 = self as i32;
        let out: u32 = Bitcast::<u32>::bitcast(wide);
        assert(out == <Self as As<u32>>::cast_spec(self));
        out
    }
}

impl As<u64> for i16 {
    open spec fn cast_spec(self) -> u64 {
        wrap64(self as int)
    }

    fn cast(self) -> (out: u64) {
        let wide: i64 = self as i64;
        let out: u64 = Bitcast::<u64>::bitcast(wide);
        assert(out == <Self as As<u64>>::cast_spec(self));
        out
    }
}

impl As<u64> for i32 {
    open spec fn cast_spec(self) -> u64 {
        wrap64(self as int)
    }

    fn cast(self) -> (out: u64) {
        let wide: i64 = self as i64;
        let out: u64 = Bitcast::<u64>::bitcast(wide);
        assert(out == <Self as As<u64>>::cast_spec(self));
        out
    }
}

/// The signed 32-bit integer that is congruent to `v` modulo 2^32.
pub open spec fn signed_wrap32(v: int) -> i32 {
    signed32(wrap32(v)) as i32
}

/// The signed 64-bit integer that is congruent to `v` modulo 2^64.
pub open spec fn signed_wrap64(v: int) -> i64 {
    signed64(wrap64(v)) as i64
}

impl Wrapping for u32 {
    open spec fn wrapping_add_spec(self, rhs: Self) -> Self {
        wrap32(self + rhs)
    }

    open spec fn wrapping_sub_spec(self, rhs: Self) -> Self {
        wrap32(self - rhs)
    }

    open spec fn wrapping_shl_spec(self, rhs: u32) -> Self {
        self << (rhs % 32)
    }

    open spec fn wrapping_shr_spec(self, rhs: u32) -> Self {
        self >> (rhs % 32)
    }

    open spec fn wrapping_mul_spec(self, rhs: Self) -> Self {
        wrap32(self * rhs)
    }

    open spec fn wrapping_div_spec(self, rhs: Self) -> Self {
        self / rhs
    }

    open spec fn wrapping_rem_spec(self, rhs: Self) -> Self {
        self % rhs
    }

    open spec fn is_zero_spec(self) -> bool {
        self == 0
    }

    fn wrapping_add(self, rhs: Self) -> (out: Self)
        ensures
            out == self.wrapping_add_spec(rhs),
    {
        u32::wrapping_add(self, rhs)
    }

    fn wrapping_sub(self, rhs: Self) -> (out: Self)
        ensures
            out == self.wrapping_sub_spec(rhs),
    {
        u32::wrapping_sub(self, rhs)
    }

    fn wrapping_shl(self, rhs: u32) -> (out: Self)
        ensures
            out == self.wrapping_shl_spec(rhs),
    {
        u32::wrapping_shl(self, rhs)
    }

    fn wrapping_shr(self, rhs: u32) -> (out: Self)
        ensures
            out == self.wrapping_shr_spec(rhs),
    {
        u32::wrapping_shr(self, rhs)
    }

    fn wrapping_mul(self, rhs: Self) -> (out: Self)
        ensures
            out == self.wrapping_mul_spec(rhs),
    {
        u32::wrapping_mul(self, rhs)
    }

    fn wrapping_div(self, rhs: Self) -> (out: Self)
        ensures
            out == self.wrapping_div_spec(rhs),
    {
        self / rhs
    }

    fn wrapping_rem(self, rhs: Self) -> (out: Self)
        ensures
            out == self.wrapping_rem_spec(rhs),
    {
        self % rhs
    }
}

impl Wrapping for u64 {
    open spec fn wrapping_add_spec(self, rhs: Self) -> Self {
        wrap64(self + rhs)
    }

    open spec fn wrapping_sub_spec(self, rhs: Self) -> Self {
        wrap64(self - rhs)
    }

    open spec fn wrapping_shl_spec(self, rhs: u32) -> Self {
        self << (rhs % 64)
    }

    open spec fn wrapping_shr_spec(self, rhs: u32) -> Self {
        self >> (rhs % 64)
    }

    open spec fn wrapping_mul_spec(self, rhs: Self) -> Self {
        wrap64(self * rhs)
    }

    open spec fn wrapping_div_spec(self, rhs: Self) -> Self {
        self / rhs
    }

    open spec fn wrapping_rem_spec(self, rhs: Self) -> Self {
        self % rhs
    }

    open spec fn is_zero_spec(self) -> bool {
        self == 0
    }

    fn wrapping_add(self, rhs: Self) -> (out: Self)
        ensures
            out == self.wrapping_add_spec(rhs),
    {
        u64::wrapping_add(self, rhs)
    }

    fn wrapping_sub(self, rhs: Self) -> (out: Self)
        ensures
            out == self.wrapping_sub_spec(rhs),
    {
        u64::wrapping_sub(self, rhs)
    }

    fn wrapping_shl(self, rhs: u32) -> (out: Self)
        ensures
            out == self.wrapping_shl_spec(rhs),
    {
        u64::wrapping_shl(self, rhs)
    }

    fn wrapping_shr(self, rhs: u32) -> (out: Self)
        ensures
            out == self.wrapping_shr_spec(rhs),
    {
        u64::wrapping_shr(self, rhs)
    }

    fn wrapping_mul(self, rhs: Self) -> (out: Self)
        ensures
            out == self.wrapping_mul_spec(rhs),
    {
        u64::wrapping_mul(self, rhs)
    }

    fn wrapping_div(self, rhs: Self) -> (out: Self)
        ensures
            out == self.wrapping_div_spec(rhs),
    {
        self / rhs
    }

    fn wrapping_rem(self, rhs: Self) -> (out: Self)
        ensures
            out == self.wrapping_rem_spec(rhs),
    {
        self % rhs
    }
}

impl Wrapping for i32 {
    open spec fn wrapping_add_spec(self, rhs: Self) -> Self {
        signed_wrap32(self + rhs)
    }

    open spec fn wrapping_sub_spec(self, rhs: Self) -> Self {
        signed_wrap32(self - rhs)
    }

    open spec fn wrapping_shl_spec(self, rhs: u32) -> Self {
        self << (rhs % 32)
    }

    open spec fn wrapping_shr_spec(self, rhs: u32) -> Self {
        self >> (rhs % 32)
    }

    open spec fn wrapping_mul_spec(self, rhs: Self) -> Self {
        signed_wrap32(self * rhs)
    }

    open spec fn wrapping_div_spec(self, rhs: Self) -> Self {
        if self == i32::MIN && rhs == -1 {
            self
        } else {
            trunc_div(self as int, rhs as int) as i32
        }
    }

    open spec fn wrapping_rem_spec(self, rhs: Self) -> Self {
        if self == i32::MIN && rhs == -1 {
            0
        } else {
            trunc_rem(self as int, rhs as int) as i32
        }
    }

    open spec fn is_zero_spec(self) -> bool {
        self == 0
    }

    fn wrapping_add(self, rhs: Self) -> (out: Self)
        ensures
            out == self.wrapping_add_spec(rhs),
    {
        i32::wrapping_add(self, rhs)
    }

    fn wrapping_sub(self, rhs: Self) -> (out: Self)
        ensures
            out == self.wrapping_sub_spec(rhs),
    {
        i32::wrapping_sub(self, rhs)
    }

    fn wrapping_shl(self, rhs: u32) -> (out: Self)
        ensures
            out == self.wrapping_shl_spec(rhs),
    {
        i32::wrapping_shl(self, rhs)
    }

    fn wrapping_shr(self, rhs: u32) -> (out: Self)
        ensures
            out == self.wrapping_shr_spec(rhs),
    {
        i32::wrapping_shr(self, rhs)
    }

    fn wrapping_mul(self, rhs: Self) -> (out: Self)
        ensures
            out == self.wrapping_mul_spec(rhs),
    {
        i32::wrapping_mul(self, rhs)
    }

    fn wrapping_div(self, rhs: Self) -> (out: Self)
        ensures
            out == self.wrapping_div_spec(rhs),
    {
        if self == i32::MIN && rhs == -1 {
            self
        } else {
            proof {
                lemma_quotient_bounds(abs_int(self as int), abs_int(rhs as int));
                if rhs < 0 {
                    lemma_negative_divisor(abs_int(self as int), rhs as int);
                }
            }
            self / rhs
        }
    }

    fn wrapping_rem(self, rhs: Self) -> (out: Self)
        ensures
            out == self.wrapping_rem_spec(rhs),
    {
        if self == i32::MIN && rhs == -1 {
            0
        } else {
            proof {
                lemma_quotient_bounds(abs_int(self as int), abs_int(rhs as int));
                if rhs < 0 {
                    lemma_negative_divisor(abs_int(self as int), rhs as int);
                }
            }
            self % rhs
        }
    }
}

impl Wrapping for i64 {
    open spec fn wrapping_add_spec(self, rhs: Self) -> Self {
        signed_wrap64(self + rhs)
    }

    open spec fn wrapping_sub_spec(self, rhs: Self) -> Self {
        signed_wrap64(self - rhs)
    }

    open spec fn wrapping_shl_spec(self, rhs: u32) -> Self {
        self << (rhs % 64)
    }

    open spec fn wrapping_shr_spec(self, rhs: u32) -> Self {
        self >> (rhs % 64)
    }

    open spec fn wrapping_mul_spec(self, rhs: Self) -> Self {
        signed_wrap64(self * rhs)
    }

    open spec fn wrapping_div_spec(self, rhs: Self) -> Self {
        if self == i64::MIN && rhs == -1 {
            self
        } else {
            trunc_div(self as int, rhs as int) as i64
        }
    }

    open spec fn wrapping_rem_spec(self, rhs: Self) -> Self {
        if self == i64::MIN && rhs == -1 {
            0
        } else {
            trunc_rem(self as int, rhs as int) as i64
        }
    }

    open spec fn is_zero_spec(self) -> bool {
        self == 0
    }

    fn wrapping_add(self, rhs: Self) -> (out: Self)
        ensures
            out == self.wrapping_add_spec(rhs),
    {
        i64::wrapping_add(self, rhs)
    }

    fn wrapping_sub(self, rhs: Self) -> (out: Self)
        ensures
            out == self.wrapping_sub_spec(rhs),
    {
        i64::wrapping_sub(self, rhs)
    }

    fn wrapping_shl(self, rhs: u32) -> (out: Self)
        ensures
            out == self.wrapping_shl_spec(rhs),
    {
        i64::wrapping_shl(self, rhs)
    }

    fn wrapping_shr(self, rhs: u32) -> (out: Self)
        ensures
            out == self.wrapping_shr_spec(rhs),
    {
        i64::wrapping_shr(self, rhs)
    }

    fn wrapping_mul(self, rhs: Self) -> (out: Self)
        ensures
            out == self.wrapping_mul_spec(rhs),
    {
        i64::wrapping_mul(self, rhs)
    }

    fn wrapping_div(self, rhs: Self) -> (out: Self)
        ensures
            out == self.wrapping_div_spec(rhs),
    {
        if self == i64::MIN && rhs == -1 {
            self
        } else {
            proof {
                lemma_quotient_bounds(abs_int(self as int), abs_int(rhs as int));
                if rhs < 0 {
                    lemma_negative_divisor(abs_int(self as int), rhs as int);
                }
            }
            self / rhs
        }
    }

    fn wrapping_rem(self, rhs: Self) -> (out: Self)
        ensures
            out == self.wrapping_rem_spec(rhs),
    {
        if self == i64::MIN && rhs == -1 {
            0
        } else {
            proof {
                lemma_quotient_bounds(abs_int(self as int), abs_int(rhs as int));
                if rhs < 0 {
                    lemma_negative_divisor(abs_int(self as int), rhs as int);
                }
            }
            self % rhs
        }
    }
}

impl UnsignedWrapping for u32 {
    open spec fn wrapping_add_signed_spec(self, rhs: i32) -> Self {
        wrap32(self + rhs)
    }

    fn wrapping_add_signed(self, rhs: i32) -> (out: Self)
        ensures
            out == self.wrapping_add_signed_spec(rhs),
    {
        u32::wrapping_add_signed(self, rhs)
    }
}

impl UnsignedWrapping for u64 {
    open spec fn wrapping_add_signed_spec(self, rhs: i64) -> Self {
        wrap64(self + rhs)
    }

    fn wrapping_add_signed(self, rhs: i64) -> (out: Self)
        ensures
            out == self.wrapping_add_signed_spec(rhs),
    {
        u64::wrapping_add_signed(self, rhs)
    }
}

impl Widening for u32 {
    open spec fn widening_mul_spec(self, rhs: Self) -> (Self, Self) {
        (wrap32(self * rhs), ((self * rhs) / 0x1_0000_0000) as u32)
    }

    fn widening_mul(self, rhs: Self) -> (out: (Self, Self))
        ensures
            out == self.widening_mul_spec(rhs),
    {
        assert(0 <= self * rhs <= u32::MAX * u32::MAX) by (nonlinear_arith)
            requires
                0 <= self <= u32::MAX,
                0 <= rhs <= u32::MAX,
        ;
        let wide: u64 = (self as u64) * (rhs as u64);
        let low: u32 = (wide % 0x1_0000_0000) as u32;
        let high: u32 = (wide / 0x1_0000_0000) as u32;
        (low, high)
    }
}

impl Widening for u64 {
    open spec fn widening_mul_spec(self, rhs: Self) -> (Self, Self) {
        (wrap64(self * rhs), ((self * rhs) / 0x1_0000_0000_0000_0000) as u64)
    }

    fn widening_mul(self, rhs: Self) -> (out: (Self, Self))
        ensures
            out == self.widening_mul_spec(rhs),
    {
        assert(0 <= self * rhs <= u64::MAX * u64::MAX) by (nonlinear_arith)
            requires
                0 <= self <= u64::MAX,
                0 <= rhs <= u64::MAX,
        ;
        let wide: u128 = (self as u128) * (rhs as u128);
        let low: u64 = (wide % 0x1_0000_0000_0000_0000) as u64;
        let high: u64 = (wide / 0x1_0000_0000_0000_0000) as u64;
        (low, high)
    }
}

impl Widening for i32 {
    open spec fn widening_mul_spec(self, rhs: Self) -> (Self, Self) {
        (signed_wrap32(self * rhs), ((self * rhs) / 0x1_0000_0000) as i32)
    }

    fn widening_mul(self, rhs: Self) -> (out: (Self, Self))
        ensures
            out == self.widening_mul_spec(rhs),
    {
        assert(-(i32::MAX * (i32::MAX + 1)) <= self * rhs <= (i32::MAX + 1) * (i32::MAX + 1))
            by (nonlinear_arith)
            requires
                i32::MIN <= self <= i32::MAX,
                i32::MIN <= rhs <= i32::MAX,
                i32::MIN == -(i32::MAX + 1),
        ;
        let wide: i64 = (self as i64) * (rhs as i64);
        let high: i64 = if wide >= 0 {
            wide / 0x1_0000_0000
        } else {
            (wide + 1) / 0x1_0000_0000 - 1
        };
        let low: u32 = (wide - high * 0x1_0000_0000) as u32;
        (Bitcast::<i32>::bitcast(low), high as i32)
    }
}

impl Widening for i64 {
    open spec fn widening_mul_spec(self, rhs: Self) -> (Self, Self) {
        (signed_wrap64(self * rhs), ((self * rhs) / 0x1_0000_0000_0000_0000) as i64)
    }

    fn widening_mul(self, rhs: Self) -> (out: (Self, Self))
        ensures
            out == self.widening_mul_spec(rhs),
    {
        assert(-(i64::MAX * (i64::MAX + 1)) <= self * rhs <= (i64::MAX + 1) * (i64::MAX + 1))
            by (nonlinear_arith)
            requires
                i64::MIN <= self <= i64::MAX,
                i64::MIN <= rhs <= i64::MAX,
                i64::MIN == -(i64::MAX + 1),
        ;
        let wide: i128 = (self as i128) * (rhs as i128);
        let high: i128 = if wide >= 0 {
            wide / 0x1_0000_0000_0000_0000
        } else {
            (wide + 1) / 0x1_0000_0000_0000_0000 - 1
        };
        let low: u64 = (wide - high * 0x1_0000_0000_0000_0000) as u64;
        (Bitcast::<i64>::bitcast(low), high as i64)
    }
}

impl As<u32> for i8 {
    open spec fn cast_spec(self) -> u32 {
        wrap32(self as int)
    }

    fn cast(self) -> (out: u32) {
        let wide: i32 = self as i32;
        let out: u32 = Bitcast::<u32>::bitcast(wide);
        assert(out == <Self as As<u32>>::cast_spec(self));
        out
    }
}

impl As<u64> for i8 {
    open spec fn cast_spec(self) -> u64 {
        wrap64(self as int)
    }

    fn cast(self) -> (out: u64) {
        let wide: i64 = self as i64;
        let out: u64 = Bitcast::<u64>::bitcast(wide);
        assert(out == <Self as As<u64>>::cast_spec(self));
        out
    }
}

impl As<u8> for u32 {
    open spec fn cast_spec(self) -> u8 {
        (self % 0x100) as u8
    }

    fn cast(self) -> (out: u8) {
        let out: u8 = (self % 0x100) as u8;
        assert(out == <Self as As<u8>>::cast_spec(self));
        out
    }
}

impl As<u16> for u32 {
    open spec fn cast_spec(self) -> u16 {
        (self % 0x1_0000) as u16
    }

    fn cast(self) -> (out: u16) {
        let out: u16 = (self % 0x1_0000) as u16;
        assert(out == <Self as As<u16>>::cast_spec(self));
        out
    }
}

impl As<u8> for u64 {
    open spec fn cast_spec(self) -> u8 {
        (self % 0x100) as u8
    }

    fn cast(self) -> (out: u8) {
        let out: u8 = (self % 0x100) as u8;
        assert(out == <Self as As<u8>>::cast_spec(self));
        out
    }
}

impl As<u16> for u64 {
    open spec fn cast_spec(self) -> u16 {
        (self % 0x1_0000) as u16
    }

    fn cast(self) -> (out: u16) {
        let out: u16 = (self % 0x1_0000) as u16;
        assert(out == <Self as As<u16>>::cast_spec(self));
        out
    }
}

} // verus!
