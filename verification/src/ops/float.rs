use crate::num::wrap32;
use vstd::arithmetic::power2::pow2;
use vstd::prelude::*;

verus! {

/// The sign of a single-precision bit pattern: 1 for negative, 0 otherwise.
pub open spec fn sign_bit(bits: u32) -> nat {
    bits as nat / 0x8000_0000
}

/// The bit pattern without its sign: exponent and mantissa.
pub open spec fn magnitude(bits: u32) -> nat {
    bits as nat % 0x8000_0000
}

/// The biased exponent, from 0 to 255.
pub open spec fn exponent(bits: u32) -> nat {
    magnitude(bits) / 0x80_0000
}

/// The 23 bits of the mantissa.
pub open spec fn mantissa(bits: u32) -> nat {
    bits as nat % 0x80_0000
}

/// The pattern is not a number: the exponent is all ones and the mantissa is
/// not zero.
pub open spec fn is_nan(bits: u32) -> bool {
    magnitude(bits) > 0x7F80_0000
}

/// The place of a bit pattern in the total order of single-precision numbers:
/// negative patterns come before positive ones, so that negative zero is less
/// than positive zero, and a greater magnitude lies farther from zero.
pub open spec fn total_key(bits: u32) -> int {
    if sign_bit(bits) == 0 {
        magnitude(bits) as int
    } else {
        -(magnitude(bits) as int) - 1
    }
}

/// The place of a number in the order of the values: as `total_key`, but with
/// the two zeros equal. It is meant for patterns that are numbers.
pub open spec fn ordered_key(bits: u32) -> int {
    if sign_bit(bits) == 0 {
        magnitude(bits) as int
    } else {
        -(magnitude(bits) as int)
    }
}

/// The integer part of the absolute value of a finite number whose biased
/// exponent is at least 127: the mantissa with its hidden bit, scaled by the
/// exponent and truncated.
pub open spec fn truncated_magnitude(bits: u32) -> nat
    recommends
        127 <= exponent(bits) < 255,
{
    if exponent(bits) >= 150 {
        (0x80_0000 + mantissa(bits)) * crate::two_to((exponent(bits) - 150) as nat)
    } else {
        (0x80_0000 + mantissa(bits)) / crate::two_to((150 - exponent(bits)) as nat)
    }
}

/// The classification mask of a bit pattern: exactly one of ten bits, which
/// stand, from the lowest, for negative infinity, a negative normal number, a
/// negative subnormal number, negative zero, positive zero, a positive
/// subnormal number, a positive normal number, positive infinity, a signaling
/// and a quiet not-a-number. The quiet bit is given to the canonical pattern
/// `0x7FC0_0000` alone; every other not-a-number has the signaling bit.
pub open spec fn class_mask(bits: u32) -> u32 {
    if is_nan(bits) {
        if bits == 0x7FC0_0000 {
            0x200
        } else {
            0x100
        }
    } else if magnitude(bits) == 0x7F80_0000 {
        if sign_bit(bits) == 1 {
            0x001
        } else {
            0x080
        }
    } else if magnitude(bits) == 0 {
        if sign_bit(bits) == 1 {
            0x008
        } else {
            0x010
        }
    } else if exponent(bits) == 0 {
        if sign_bit(bits) == 1 {
            0x004
        } else {
            0x020
        }
    } else {
        if sign_bit(bits) == 1 {
            0x002
        } else {
            0x040
        }
    }
}

/// The signed integer of 32 bits for `bits`, as a bit pattern: the number
/// truncated toward zero, the nearest bound where it is out of range, and
/// zero for not-a-number.
pub open spec fn to_signed_word(bits: u32) -> u32 {
    if is_nan(bits) || exponent(bits) < 127 {
        0
    } else if exponent(bits) >= 158 {
        if sign_bit(bits) == 1 {
            0x8000_0000
        } else {
            0x7FFF_FFFF
        }
    } else if sign_bit(bits) == 1 {
        wrap32(-(truncated_magnitude(bits) as int))
    } else {
        truncated_magnitude(bits) as u32
    }
}

/// The unsigned integer of 32 bits for `bits`: the number truncated toward
/// zero, zero for a negative number and for not-a-number, and the greatest
/// integer where the number is too large.
pub open spec fn to_unsigned_word(bits: u32) -> u32 {
    if is_nan(bits) || sign_bit(bits) == 1 || exponent(bits) < 127 {
        0
    } else if exponent(bits) >= 159 {
        0xFFFF_FFFF
    } else {
        truncated_magnitude(bits) as u32
    }
}

/// The integer part of the absolute value, for an exponent from 127 to
/// `150 + headroom`.
fn truncate_magnitude(bits: u32, headroom: u32) -> (out: u32)
    requires
        headroom <= 8,
        127 <= exponent(bits) <= 150 + headroom,
    ensures
        out == truncated_magnitude(bits),
        out < 0x100_0000 * pow2(headroom as nat),
{
    let exp: u32 = (bits % 0x8000_0000) / 0x80_0000;
    let significand: u32 = 0x80_0000 + bits % 0x80_0000;
    proof {
        vstd::arithmetic::power2::lemma2_to64();
        if exp >= 150 {
            assert(crate::two_to((exp - 150) as nat) == pow2((exp - 150) as nat));
        } else {
            assert(crate::two_to((150 - exp) as nat) == pow2((150 - exp) as nat));
        }
    }
    if exp >= 150 {
        let shift: u32 = exp - 150;
        proof {
            if shift < headroom {
                vstd::arithmetic::power2::lemma_pow2_strictly_increases(
                    shift as nat,
                    headroom as nat,
                );
            }
            vstd::arithmetic::power2::lemma_pow2_strictly_increases(headroom as nat, 9);
            let scale = pow2(shift as nat) as int;
            let limit = pow2(headroom as nat) as int;
            assert(significand * scale < 0x100_0000 * limit && 0x100_0000 * limit
                <= 0x100_0000 * 256) by (nonlinear_arith)
                requires
                    0 <= significand < 0x100_0000,
                    0 < scale <= limit,
                    limit <= 256,
            ;
            vstd::arithmetic::power2::lemma_pow2_pos(shift as nat);
            vstd::bits::lemma_u32_shl_is_mul(significand, shift);
        }
        significand << shift
    } else {
        let shift: u32 = 150 - exp;
        proof {
            vstd::bits::lemma_u32_shr_is_div(significand, shift);
            vstd::arithmetic::power2::lemma_pow2_pos(shift as nat);
            vstd::arithmetic::power2::lemma_pow2_pos(headroom as nat);
            crate::num::lemma_quotient_bounds(significand as int, pow2(shift as nat) as int);
            assert(0x100_0000 * pow2(headroom as nat) >= 0x100_0000) by (nonlinear_arith)
                requires
                    pow2(headroom as nat) >= 1,
            ;
        }
        significand >> shift
    }
}

/// The total-order key of a pattern, computed.
fn key(bits: u32) -> (out: i64)
    ensures
        out == total_key(bits),
{
    let mag: i64 = (bits % 0x8000_0000) as i64;
    if bits / 0x8000_0000 == 0 {
        mag
    } else {
        -mag - 1
    }
}

/// The order key of a pattern, computed.
fn value_key(bits: u32) -> (out: i64)
    ensures
        out == ordered_key(bits),
{
    let mag: i64 = (bits % 0x8000_0000) as i64;
    if bits / 0x8000_0000 == 0 {
        mag
    } else {
        -mag
    }
}

/// Whether a pattern is not a number, computed.
fn nan(bits: u32) -> (out: bool)
    ensures
        out == is_nan(bits),
{
    bits % 0x8000_0000 > 0x7F80_0000
}

/// The first operand with the sign of the second.
pub trait Fsgnj: Sized {
    spec fn fsgnj_spec(self, other: Self) -> Self;

    fn fsgnj(self, other: Self) -> (out: Self)
        ensures
            out == self.fsgnj_spec(other),
    ;
}

/// The first operand with the opposite of the sign of the second.
pub trait Fsgnjn: Sized {
    spec fn fsgnjn_spec(self, other: Self) -> Self;

    fn fsgnjn(self, other: Self) -> (out: Self)
        ensures
            out == self.fsgnjn_spec(other),
    ;
}

/// The first operand with a sign that is negative exactly where the signs of the operands differ.
pub trait Fsgnjx: Sized {
    spec fn fsgnjx_spec(self, other: Self) -> Self;

    fn fsgnjx(self, other: Self) -> (out: Self)
        ensures
            out == self.fsgnjx_spec(other),
    ;
}

/// The operand that comes first in the total order; the second where they are the same pattern.
pub trait Fmin: Sized {
    spec fn fmin_spec(self, other: Self) -> Self;

    fn fmin(self, other: Self) -> (out: Self)
        ensures
            out == self.fmin_spec(other),
    ;
}

/// The operand that comes last in the total order; the second where they are the same pattern.
pub trait Fmax: Sized {
    spec fn fmax_spec(self, other: Self) -> Self;

    fn fmax(self, other: Self) -> (out: Self)
        ensures
            out == self.fmax_spec(other),
    ;
}

/// The number converted to a signed integer of 32 bits, truncating toward zero.
/// The second operand is ignored.
pub trait Fcvtws: Sized {
    spec fn fcvtws_spec(self, other: Self) -> Self;

    fn fcvtws(self, other: Self) -> (out: Self)
        ensures
            out == self.fcvtws_spec(other),
    ;
}

/// The number converted to an unsigned integer of 32 bits, truncating toward
/// zero. The second operand is ignored.
pub trait Fcvtwus: Sized {
    spec fn fcvtwus_spec(self, other: Self) -> Self;

    fn fcvtwus(self, other: Self) -> (out: Self)
        ensures
            out == self.fcvtwus_spec(other),
    ;
}

/// The bit pattern of a floating-point register, moved to an integer register
/// unchanged. The second operand is ignored.
pub trait Fmvxw: Sized {
    spec fn fmvxw_spec(self, other: Self) -> Self;

    fn fmvxw(self, other: Self) -> (out: Self)
        ensures
            out == self.fmvxw_spec(other),
    ;
}

/// One where both operands are numbers and equal in value, so that the two zeros
/// are equal; zero otherwise.
pub trait Feq: Sized {
    spec fn feq_spec(self, other: Self) -> Self;

    fn feq(self, other: Self) -> (out: Self)
        ensures
            out == self.feq_spec(other),
    ;
}

/// One where both operands are numbers and the first is less in value; zero otherwise.
pub trait Flt: Sized {
    spec fn flt_spec(self, other: Self) -> Self;

    fn flt(self, other: Self) -> (out: Self)
        ensures
            out == self.flt_spec(other),
    ;
}

/// One where both operands are numbers and the first is less or equal in value; zero otherwise.
pub trait Fle: Sized {
    spec fn fle_spec(self, other: Self) -> Self;

    fn fle(self, other: Self) -> (out: Self)
        ensures
            out == self.fle_spec(other),
    ;
}

/// The classification mask of the number. The second operand is ignored.
pub trait Fclass: Sized {
    spec fn fclass_spec(self, other: Self) -> Self;

    fn fclass(self, other: Self) -> (out: Self)
        ensures
            out == self.fclass_spec(other),
    ;
}

/// The bit pattern of an integer register, moved to a floating-point register
/// unchanged. The second operand is ignored.
pub trait Fmvwx: Sized {
    spec fn fmvwx_spec(self, other: Self) -> Self;

    fn fmvwx(self, other: Self) -> (out: Self)
        ensures
            out == self.fmvwx_spec(other),
    ;
}

/// The single-precision operations that are defined on bit patterns alone.
pub trait BaseFloat:
    Copy
    + Fsgnj
    + Fsgnjn
    + Fsgnjx
    + Fmin
    + Fmax
    + Fcvtws
    + Fcvtwus
    + Fmvxw
    + Feq
    + Fle
    + Flt
    + Fclass
    + Fmvwx
{
}

impl Fsgnj for u32 {
    open spec fn fsgnj_spec(self, other: Self) -> Self {
        (magnitude(self) + sign_bit(other) * 0x8000_0000) as u32
    }

    fn fsgnj(self, other: Self) -> (out: Self)
        ensures
            out == self.fsgnj_spec(other),
    {
        self % 0x8000_0000 + (other / 0x8000_0000) * 0x8000_0000
    }
}

impl Fsgnjn for u32 {
    open spec fn fsgnjn_spec(self, other: Self) -> Self {
        (magnitude(self) + (1 - sign_bit(other)) * 0x8000_0000) as u32
    }

    fn fsgnjn(self, other: Self) -> (out: Self)
        ensures
            out == self.fsgnjn_spec(other),
    {
        self % 0x8000_0000 + (1 - other / 0x8000_0000) * 0x8000_0000
    }
}

impl Fsgnjx for u32 {
    open spec fn fsgnjx_spec(self, other: Self) -> Self {
        (magnitude(self) + ((sign_bit(self) + sign_bit(other)) % 2) * 0x8000_0000) as u32
    }

    fn fsgnjx(self, other: Self) -> (out: Self)
        ensures
            out == self.fsgnjx_spec(other),
    {
        self % 0x8000_0000 + ((self / 0x8000_0000 + other / 0x8000_0000) % 2) * 0x8000_0000
    }
}

impl Fmin for u32 {
    open spec fn fmin_spec(self, other: Self) -> Self {
        if total_key(self) < total_key(other) {
            self
        } else {
            other
        }
    }

    fn fmin(self, other: Self) -> (out: Self)
        ensures
            out == self.fmin_spec(other),
    {
        if key(self) < key(other) {
            self
        } else {
            other
        }
    }
}

impl Fmax for u32 {
    open spec fn fmax_spec(self, other: Self) -> Self {
        if total_key(self) > total_key(other) {
            self
        } else {
            other
        }
    }

    fn fmax(self, other: Self) -> (out: Self)
        ensures
            out == self.fmax_spec(other),
    {
        if key(self) > key(other) {
            self
        } else {
            other
        }
    }
}

impl Fcvtws for u32 {
    open spec fn fcvtws_spec(self, other: Self) -> Self {
        to_signed_word(self)
    }

    fn fcvtws(self, other: Self) -> (out: Self)
        ensures
            out == self.fcvtws_spec(other),
    {
        let exp: u32 = (self % 0x8000_0000) / 0x80_0000;
        if nan(self) || exp < 127 {
            0
        } else if exp >= 158 {
            if self / 0x8000_0000 == 1 {
                0x8000_0000
            } else {
                0x7FFF_FFFF
            }
        } else {
            proof {
                vstd::arithmetic::power2::lemma2_to64();
            }
            let whole: u32 = truncate_magnitude(self, 7);
            if self / 0x8000_0000 == 1 {
                0u32.wrapping_sub(whole)
            } else {
                whole
            }
        }
    }
}

impl Fcvtwus for u32 {
    open spec fn fcvtwus_spec(self, other: Self) -> Self {
        to_unsigned_word(self)
    }

    fn fcvtwus(self, other: Self) -> (out: Self)
        ensures
            out == self.fcvtwus_spec(other),
    {
        let exp: u32 = (self % 0x8000_0000) / 0x80_0000;
        if nan(self) || self / 0x8000_0000 == 1 || exp < 127 {
            0
        } else if exp >= 159 {
            0xFFFF_FFFF
        } else {
            truncate_magnitude(self, 8)
        }
    }
}

impl Fmvxw for u32 {
    open spec fn fmvxw_spec(self, other: Self) -> Self {
        self
    }

    fn fmvxw(self, other: Self) -> (out: Self)
        ensures
            out == self.fmvxw_spec(other),
    {
        self
    }
}

impl Feq for u32 {
    open spec fn feq_spec(self, other: Self) -> Self {
        if !is_nan(self) && !is_nan(other) && ordered_key(self) == ordered_key(other) {
            1
        } else {
            0
        }
    }

    fn feq(self, other: Self) -> (out: Self)
        ensures
            out == self.feq_spec(other),
    {
        if !nan(self) && !nan(other) && value_key(self) == value_key(other) {
            1
        } else {
            0
        }
    }
}

impl Flt for u32 {
    open spec fn flt_spec(self, other: Self) -> Self {
        if !is_nan(self) && !is_nan(other) && ordered_key(self) < ordered_key(other) {
            1
        } else {
            0
        }
    }

    fn flt(self, other: Self) -> (out: Self)
        ensures
            out == self.flt_spec(other),
    {
        if !nan(self) && !nan(other) && value_key(self) < value_key(other) {
            1
        } else {
            0
        }
    }
}

impl Fle for u32 {
    open spec fn fle_spec(self, other: Self) -> Self {
        if !is_nan(self) && !is_nan(other) && ordered_key(self) <= ordered_key(other) {
            1
        } else {
            0
        }
    }

    fn fle(self, other: Self) -> (out: Self)
        ensures
            out == self.fle_spec(other),
    {
        if !nan(self) && !nan(other) && value_key(self) <= value_key(other) {
            1
        } else {
            0
        }
    }
}

impl Fclass for u32 {
    open spec fn fclass_spec(self, other: Self) -> Self {
        class_mask(self)
    }

    fn fclass(self, other: Self) -> (out: Self)
        ensures
            out == self.fclass_spec(other),
    {
        let negative: bool = self / 0x8000_0000 == 1;
        let mag: u32 = self % 0x8000_0000;
        if mag > 0x7F80_0000 {
            if self == 0x7FC0_0000 {
                0x200
            } else {
                0x100
            }
        } else if mag == 0x7F80_0000 {
            if negative {
                0x001
            } else {
                0x080
            }
        } else if mag == 0 {
            if negative {
                0x008
            } else {
                0x010
            }
        } else if mag / 0x80_0000 == 0 {
            if negative {
                0x004
            } else {
                0x020
            }
        } else {
            if negative {
                0x002
            } else {
                0x040
            }
        }
    }
}

impl Fmvwx for u32 {
    open spec fn fmvwx_spec(self, other: Self) -> Self {
        self
    }

    fn fmvwx(self, other: Self) -> (out: Self)
        ensures
            out == self.fmvwx_spec(other),
    {
        self
    }
}

impl BaseFloat for u32 {
}

/// An arithmetic operation on single-precision numbers that rounds. Its result
/// comes from the floating-point unit of the machine that runs the engine.
#[derive(Clone, Copy, Debug, PartialEq, Eq, Structural)]
pub enum FloatOp {
    /// `a + b`.
    Fadd,
    /// `a - b`.
    Fsub,
    /// `a * b`.
    Fmul,
    /// `a / b`.
    Fdiv,
    /// The square root of `a`.
    Fsqrt,
    /// `a`, read as a signed integer of 32 bits, converted to single precision.
    Fcvtsw,
    /// `a`, read as an unsigned integer of 32 bits, converted to single precision.
    Fcvtswu,
    /// `a * b + c`, rounded once.
    Fmadd,
    /// `a * b - c`.
    Fmsub,
    /// `-(a * b) + c`.
    Fnmsub,
    /// `-(a * b) - c`.
    Fnmadd,
}

/// A rounding operation that an instruction asks for: the operation, the bit
/// patterns of its operands, and the floating-point register that receives
/// the result. An operand that the operation does not use is zero.
#[derive(Clone, Copy, Debug, PartialEq, Eq, Structural)]
pub struct FloatRequest {
    pub op: FloatOp,
    pub a: u32,
    pub b: u32,
    pub c: u32,
    pub rd: crate::registers::Register,
}

impl FloatRequest {
    /// Writes the result of the operation to its destination: the
    /// floating-point register receives the bit pattern, zero-extended to the
    /// width of the word. No other register changes.
    pub fn complete<T>(self, result: u32, fregs: &mut crate::registers::Registers<T>) where
        T: crate::registers::Zero + Copy,
        u32: crate::num::As<T>,

        ensures
            final(fregs)@ == old(fregs)@.update(
                self.rd.index_spec() as int,
                crate::num::As::<T>::cast_spec(result),
            ),
    {
        *fregs.get_mut(self.rd) = crate::num::As::<T>::cast(result);
    }
}

} // verus!
