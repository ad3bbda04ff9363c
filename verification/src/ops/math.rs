use crate::decode::{U12, U6};
use crate::num::{
    signed32, signed64, trunc_div, trunc_rem, wrap32, wrap64, As, Bitcast, UnsignedWrapping,
    Widening, Wrapping,
};
use vstd::prelude::*;

verus! {

/// Sum, wrapping at the width of the word.
pub trait Add: Sized {
    spec fn add_spec(self, other: Self) -> Self;

    fn add(self, other: Self) -> (out: Self)
        ensures
            out == self.add_spec(other),
    ;
}

/// Difference, wrapping at the width of the word.
pub trait Sub: Sized {
    spec fn sub_spec(self, other: Self) -> Self;

    fn sub(self, other: Self) -> (out: Self)
        ensures
            out == self.sub_spec(other),
    ;
}

/// Logical shift left by the low bits of the second operand.
pub trait Sll: Sized {
    spec fn sll_spec(self, other: Self) -> Self;

    fn sll(self, other: Self) -> (out: Self)
        ensures
            out == self.sll_spec(other),
    ;
}

/// One where the first operand is less than the second, both read as signed; zero otherwise.
pub trait Slt: Sized {
    spec fn slt_spec(self, other: Self) -> Self;

    fn slt(self, other: Self) -> (out: Self)
        ensures
            out == self.slt_spec(other),
    ;
}

/// One where the first operand is less than the second, both read as unsigned; zero otherwise.
pub trait Sltu: Sized {
    spec fn sltu_spec(self, other: Self) -> Self;

    fn sltu(self, other: Self) -> (out: Self)
        ensures
            out == self.sltu_spec(other),
    ;
}

/// Bitwise exclusive or.
pub trait Xor: Sized {
    spec fn xor_spec(self, other: Self) -> Self;

    fn xor(self, other: Self) -> (out: Self)
        ensures
            out == self.xor_spec(other),
    ;
}

/// Logical shift right by the low bits of the second operand.
pub trait Srl: Sized {
    spec fn srl_spec(self, other: Self) -> Self;

    fn srl(self, other: Self) -> (out: Self)
        ensures
            out == self.srl_spec(other),
    ;
}

/// Arithmetic shift right by the low bits of the second operand.
pub trait Sra: Sized {
    spec fn sra_spec(self, other: Self) -> Self;

    fn sra(self, other: Self) -> (out: Self)
        ensures
            out == self.sra_spec(other),
    ;
}

/// Bitwise or.
pub trait Or: Sized {
    spec fn or_spec(self, other: Self) -> Self;

    fn or(self, other: Self) -> (out: Self)
        ensures
            out == self.or_spec(other),
    ;
}

/// Bitwise and.
pub trait And: Sized {
    spec fn and_spec(self, other: Self) -> Self;

    fn and(self, other: Self) -> (out: Self)
        ensures
            out == self.and_spec(other),
    ;
}

/// Sum with the sign-extended immediate, wrapping at the width of the word.
pub trait Addi: Sized {
    spec fn addi_spec(self, other: U12) -> Self;

    fn addi(self, other: U12) -> (out: Self)
        ensures
            out == self.addi_spec(other),
    ;
}

/// One where the operand, read as signed, is less than the sign-extended immediate; zero otherwise.
pub trait Slti: Sized {
    spec fn slti_spec(self, other: U12) -> Self;

    fn slti(self, other: U12) -> (out: Self)
        ensures
            out == self.slti_spec(other),
    ;
}

/// One where the operand is less than the sign-extended immediate, both read as
/// unsigned; zero otherwise.
pub trait Sltiu: Sized {
    spec fn sltiu_spec(self, other: U12) -> Self;

    fn sltiu(self, other: U12) -> (out: Self)
        ensures
            out == self.sltiu_spec(other),
    ;
}

/// Bitwise exclusive or with the sign-extended immediate.
pub trait Xori: Sized {
    spec fn xori_spec(self, other: U12) -> Self;

    fn xori(self, other: U12) -> (out: Self)
        ensures
            out == self.xori_spec(other),
    ;
}

/// Bitwise or with the sign-extended immediate.
pub trait Ori: Sized {
    spec fn ori_spec(self, other: U12) -> Self;

    fn ori(self, other: U12) -> (out: Self)
        ensures
            out == self.ori_spec(other),
    ;
}

/// Bitwise and with the sign-extended immediate.
pub trait Andi: Sized {
    spec fn andi_spec(self, other: U12) -> Self;

    fn andi(self, other: U12) -> (out: Self)
        ensures
            out == self.andi_spec(other),
    ;
}

/// Logical shift left by an immediate amount.
pub trait Slli: Sized {
    spec fn slli_spec(self, other: U6) -> Self;

    fn slli(self, other: U6) -> (out: Self)
        ensures
            out == self.slli_spec(other),
    ;
}

/// Logical shift right by an immediate amount.
pub trait Srli: Sized {
    spec fn srli_spec(self, other: U6) -> Self;

    fn srli(self, other: U6) -> (out: Self)
        ensures
            out == self.srli_spec(other),
    ;
}

/// Arithmetic shift right by an immediate amount.
pub trait Srai: Sized {
    spec fn srai_spec(self, other: U6) -> Self;

    fn srai(self, other: U6) -> (out: Self)
        ensures
            out == self.srai_spec(other),
    ;
}

/// Sum of the low 32 bits, sign-extended to the word.
pub trait Addw: Sized {
    spec fn addw_spec(self, other: Self) -> Self;

    fn addw(self, other: Self) -> (out: Self)
        ensures
            out == self.addw_spec(other),
    ;
}

/// Difference of the low 32 bits, sign-extended to the word.
pub trait Subw: Sized {
    spec fn subw_spec(self, other: Self) -> Self;

    fn subw(self, other: Self) -> (out: Self)
        ensures
            out == self.subw_spec(other),
    ;
}

/// Logical shift left of the low 32 bits by the low five bits of the second
/// operand, sign-extended to the word.
pub trait Sllw: Sized {
    spec fn sllw_spec(self, other: Self) -> Self;

    fn sllw(self, other: Self) -> (out: Self)
        ensures
            out == self.sllw_spec(other),
    ;
}

/// Logical shift right of the low 32 bits by the low five bits of the second
/// operand, sign-extended to the word.
pub trait Srlw: Sized {
    spec fn srlw_spec(self, other: Self) -> Self;

    fn srlw(self, other: Self) -> (out: Self)
        ensures
            out == self.srlw_spec(other),
    ;
}

/// Arithmetic shift right of the low 32 bits by the low five bits of the second
/// operand, sign-extended to the word.
pub trait Sraw: Sized {
    spec fn sraw_spec(self, other: Self) -> Self;

    fn sraw(self, other: Self) -> (out: Self)
        ensures
            out == self.sraw_spec(other),
    ;
}

/// Sum of the low 32 bits and the sign-extended immediate, sign-extended to the word.
pub trait Addiw: Sized {
    spec fn addiw_spec(self, other: U12) -> Self;

    fn addiw(self, other: U12) -> (out: Self)
        ensures
            out == self.addiw_spec(other),
    ;
}

/// Logical shift left of the low 32 bits by the low five bits of the amount,
/// sign-extended to the word.
pub trait Slliw: Sized {
    spec fn slliw_spec(self, other: Self) -> Self;

    fn slliw(self, other: Self) -> (out: Self)
        ensures
            out == self.slliw_spec(other),
    ;
}

/// Logical shift right of the low 32 bits by the low five bits of the amount,
/// sign-extended to the word.
pub trait Srliw: Sized {
    spec fn srliw_spec(self, other: Self) -> Self;

    fn srliw(self, other: Self) -> (out: Self)
        ensures
            out == self.srliw_spec(other),
    ;
}

/// Arithmetic shift right of the low 32 bits by the low five bits of the amount,
/// sign-extended to the word.
pub trait Sraiw: Sized {
    spec fn sraiw_spec(self, other: Self) -> Self;

    fn sraiw(self, other: Self) -> (out: Self)
        ensures
            out == self.sraiw_spec(other),
    ;
}

/// Low half of the product.
pub trait Mul: Sized {
    spec fn mul_spec(self, other: Self) -> Self;

    fn mul(self, other: Self) -> (out: Self)
        ensures
            out == self.mul_spec(other),
    ;
}

/// High half of the product of the operands, both read as signed.
pub trait Mulh: Sized {
    spec fn mulh_spec(self, other: Self) -> Self;

    fn mulh(self, other: Self) -> (out: Self)
        ensures
            out == self.mulh_spec(other),
    ;
}

/// High half of the product of the first operand, read as signed, and the second, read as unsigned.
pub trait Mulhsu: Sized {
    spec fn mulhsu_spec(self, other: Self) -> Self;

    fn mulhsu(self, other: Self) -> (out: Self)
        ensures
            out == self.mulhsu_spec(other),
    ;
}

/// High half of the product of the operands, both read as unsigned.
pub trait Mulhu: Sized {
    spec fn mulhu_spec(self, other: Self) -> Self;

    fn mulhu(self, other: Self) -> (out: Self)
        ensures
            out == self.mulhu_spec(other),
    ;
}

/// Signed quotient, rounded toward zero. Division by zero gives all ones; the
/// most negative number divided by minus one gives the dividend.
pub trait Div: Sized {
    spec fn div_spec(self, other: Self) -> Self;

    fn div(self, other: Self) -> (out: Self)
        ensures
            out == self.div_spec(other),
    ;
}

/// Unsigned quotient. Division by zero gives all ones.
pub trait Divu: Sized {
    spec fn divu_spec(self, other: Self) -> Self;

    fn divu(self, other: Self) -> (out: Self)
        ensures
            out == self.divu_spec(other),
    ;
}

/// Signed remainder, with the sign of the dividend. Division by zero gives the
/// dividend; the most negative number divided by minus one gives zero.
pub trait Rem: Sized {
    spec fn rem_spec(self, other: Self) -> Self;

    fn rem(self, other: Self) -> (out: Self)
        ensures
            out == self.rem_spec(other),
    ;
}

/// Unsigned remainder. Division by zero gives the dividend.
pub trait Remu: Sized {
    spec fn remu_spec(self, other: Self) -> Self;

    fn remu(self, other: Self) -> (out: Self)
        ensures
            out == self.remu_spec(other),
    ;
}

/// The operations of the base integer set and of multiplication and division.
pub trait BaseMath:
    Add
    + Sub
    + Sll
    + Slt
    + Sltu
    + Xor
    + Srl
    + Sra
    + Or
    + And
    + Addi
    + Slti
    + Sltiu
    + Xori
    + Ori
    + Andi
    + Slli
    + Srli
    + Srai
    + Mul
    + Mulh
    + Mulhsu
    + Mulhu
    + Div
    + Divu
    + Rem
    + Remu
{
}

/// The operations on the low 32 bits of a word of 64 bits.
pub trait BaseMathW:
    BaseMath + Addw + Subw + Sllw + Srlw + Sraw + Addiw + Slliw + Srliw + Sraiw
{
}

/// The word of 64 bits whose low half is `value` and whose upper half repeats
/// the sign bit of `value`.
pub open spec fn sext32(value: u32) -> u64 {
    wrap64(signed32(value))
}

/// The low 32 bits of a word.
pub open spec fn low32(value: u64) -> u32 {
    (value % 0x1_0000_0000) as u32
}

/// Sign-extends a result of 32 bits to a word of 64 bits.
fn extend32(value: u32) -> (out: u64)
    ensures
        out == sext32(value),
{
    let signed: i32 = Bitcast::<i32>::bitcast(value);
    As::<u64>::cast(signed)
}

/// The product of two signed numbers of 32 bits, divided by 2^32, is again a
/// signed number of 32 bits.
pub proof fn lemma_high_half_signed32(a: int, b: int)
    requires
        -0x8000_0000 <= a < 0x8000_0000,
        -0x8000_0000 <= b < 0x8000_0000,
    ensures
        -0x8000_0000 <= (a * b) / 0x1_0000_0000 < 0x8000_0000,
{
    assert(-0x4000_0000_0000_0000 < a * b <= 0x4000_0000_0000_0000) by (nonlinear_arith)
        requires
            -0x8000_0000 <= a < 0x8000_0000,
            -0x8000_0000 <= b < 0x8000_0000,
    ;
}

/// The product of two signed numbers of 64 bits, divided by 2^64, is again a
/// signed number of 64 bits.
pub proof fn lemma_high_half_signed64(a: int, b: int)
    requires
        -0x8000_0000_0000_0000 <= a < 0x8000_0000_0000_0000,
        -0x8000_0000_0000_0000 <= b < 0x8000_0000_0000_0000,
    ensures
        -0x8000_0000_0000_0000 <= (a * b) / 0x1_0000_0000_0000_0000 < 0x8000_0000_0000_0000,
{
    assert(-0x4000_0000_0000_0000_0000_0000_0000_0000 < a * b
        <= 0x4000_0000_0000_0000_0000_0000_0000_0000) by (nonlinear_arith)
        requires
            -0x8000_0000_0000_0000 <= a < 0x8000_0000_0000_0000,
            -0x8000_0000_0000_0000 <= b < 0x8000_0000_0000_0000,
    ;
}

/// A truncating quotient is no larger in absolute value than the dividend.
pub proof fn lemma_trunc_div_bounds(a: int, b: int)
    requires
        b != 0,
    ensures
        -crate::num::abs_int(a) <= trunc_div(a, b) <= crate::num::abs_int(a),
        -crate::num::abs_int(a) <= trunc_rem(a, b) <= crate::num::abs_int(a),
        b == -1 ==> trunc_div(a, b) == -a,
        b < -1 ==> trunc_div(a, b) <= crate::num::abs_int(a) / 2,
{
    crate::num::lemma_quotient_bounds(crate::num::abs_int(a), crate::num::abs_int(b));
    if b == -1 {
        assert(crate::num::abs_int(a) / 1 == crate::num::abs_int(a));
    }
    if b < -1 {
        vstd::arithmetic::div_mod::lemma_div_is_ordered_by_denominator(
            crate::num::abs_int(a),
            2,
            crate::num::abs_int(b),
        );
    }
}

impl Add for u32 {
    open spec fn add_spec(self, other: Self) -> Self {
        wrap32(self + other)
    }

    fn add(self, other: Self) -> (out: Self)
        ensures
            out == self.add_spec(other),
    {
        Wrapping::wrapping_add(self, other)
    }
}

impl Sub for u32 {
    open spec fn sub_spec(self, other: Self) -> Self {
        wrap32(self - other)
    }

    fn sub(self, other: Self) -> (out: Self)
        ensures
            out == self.sub_spec(other),
    {
        Wrapping::wrapping_sub(self, other)
    }
}

impl Sll for u32 {
    open spec fn sll_spec(self, other: Self) -> Self {
        self << ((other % 32) as u32)
    }

    fn sll(self, other: Self) -> (out: Self)
        ensures
            out == self.sll_spec(other),
    {
        let count: u32 = As::<u32>::cast(other);
        assert(count % 32 == other % 32);
        Wrapping::wrapping_shl(self, count)
    }
}

impl Srl for u32 {
    open spec fn srl_spec(self, other: Self) -> Self {
        self >> ((other % 32) as u32)
    }

    fn srl(self, other: Self) -> (out: Self)
        ensures
            out == self.srl_spec(other),
    {
        let count: u32 = As::<u32>::cast(other);
        assert(count % 32 == other % 32);
        Wrapping::wrapping_shr(self, count)
    }
}

impl Sra for u32 {
    open spec fn sra_spec(self, other: Self) -> Self {
        wrap32(((signed32(self) as i32) >> ((other % 32) as u32)) as int)
    }

    fn sra(self, other: Self) -> (out: Self)
        ensures
            out == self.sra_spec(other),
    {
        let value: i32 = Bitcast::<i32>::bitcast(self);
        let count: u32 = As::<u32>::cast(other);
        assert(count % 32 == other % 32);
        Bitcast::<u32>::bitcast(Wrapping::wrapping_shr(value, count))
    }
}

impl Slt for u32 {
    open spec fn slt_spec(self, other: Self) -> Self {
        if signed32(self) < signed32(other) {
            1
        } else {
            0
        }
    }

    fn slt(self, other: Self) -> (out: Self)
        ensures
            out == self.slt_spec(other),
    {
        let a: i32 = Bitcast::<i32>::bitcast(self);
        let b: i32 = Bitcast::<i32>::bitcast(other);
        As::<u32>::cast(a < b)
    }
}

impl Sltu for u32 {
    open spec fn sltu_spec(self, other: Self) -> Self {
        if self < other {
            1
        } else {
            0
        }
    }

    fn sltu(self, other: Self) -> (out: Self)
        ensures
            out == self.sltu_spec(other),
    {
        As::<u32>::cast(self < other)
    }
}

impl Xor for u32 {
    open spec fn xor_spec(self, other: Self) -> Self {
        self ^ other
    }

    fn xor(self, other: Self) -> (out: Self)
        ensures
            out == self.xor_spec(other),
    {
        self ^ other
    }
}

impl Or for u32 {
    open spec fn or_spec(self, other: Self) -> Self {
        self | other
    }

    fn or(self, other: Self) -> (out: Self)
        ensures
            out == self.or_spec(other),
    {
        self | other
    }
}

impl And for u32 {
    open spec fn and_spec(self, other: Self) -> Self {
        self & other
    }

    fn and(self, other: Self) -> (out: Self)
        ensures
            out == self.and_spec(other),
    {
        self & other
    }
}

impl Addi for u32 {
    open spec fn addi_spec(self, other: U12) -> Self {
        wrap32(self + other.signed())
    }

    fn addi(self, other: U12) -> (out: Self)
        ensures
            out == self.addi_spec(other),
    {
        let imm: i32 = As::<i32>::cast(other.sign_extend());
        UnsignedWrapping::wrapping_add_signed(self, imm)
    }
}

impl Slti for u32 {
    open spec fn slti_spec(self, other: U12) -> Self {
        if signed32(self) < other.signed() {
            1
        } else {
            0
        }
    }

    fn slti(self, other: U12) -> (out: Self)
        ensures
            out == self.slti_spec(other),
    {
        let a: i32 = Bitcast::<i32>::bitcast(self);
        let b: i32 = As::<i32>::cast(other.sign_extend());
        As::<u32>::cast(a < b)
    }
}

impl Sltiu for u32 {
    open spec fn sltiu_spec(self, other: U12) -> Self {
        if self < wrap32(other.signed()) {
            1
        } else {
            0
        }
    }

    fn sltiu(self, other: U12) -> (out: Self)
        ensures
            out == self.sltiu_spec(other),
    {
        let imm: u32 = As::<u32>::cast(other.sign_extend());
        As::<u32>::cast(self < imm)
    }
}

impl Xori for u32 {
    open spec fn xori_spec(self, other: U12) -> Self {
        self ^ wrap32(other.signed())
    }

    fn xori(self, other: U12) -> (out: Self)
        ensures
            out == self.xori_spec(other),
    {
        let imm: u32 = As::<u32>::cast(other.sign_extend());
        self ^ imm
    }
}

impl Ori for u32 {
    open spec fn ori_spec(self, other: U12) -> Self {
        self | wrap32(other.signed())
    }

    fn ori(self, other: U12) -> (out: Self)
        ensures
            out == self.ori_spec(other),
    {
        let imm: u32 = As::<u32>::cast(other.sign_extend());
        self | imm
    }
}

impl Andi for u32 {
    open spec fn andi_spec(self, other: U12) -> Self {
        self & wrap32(other.signed())
    }

    fn andi(self, other: U12) -> (out: Self)
        ensures
            out == self.andi_spec(other),
    {
        let imm: u32 = As::<u32>::cast(other.sign_extend());
        self & imm
    }
}

impl Slli for u32 {
    open spec fn slli_spec(self, other: U6) -> Self {
        self << ((other@ % 32) as u32)
    }

    fn slli(self, other: U6) -> (out: Self)
        ensures
            out == self.slli_spec(other),
    {
        let count: u32 = other.as_u32();
        Wrapping::wrapping_shl(self, count)
    }
}

impl Srli for u32 {
    open spec fn srli_spec(self, other: U6) -> Self {
        self >> ((other@ % 32) as u32)
    }

    fn srli(self, other: U6) -> (out: Self)
        ensures
            out == self.srli_spec(other),
    {
        let count: u32 = other.as_u32();
        Wrapping::wrapping_shr(self, count)
    }
}

impl Srai for u32 {
    open spec fn srai_spec(self, other: U6) -> Self {
        wrap32(((signed32(self) as i32) >> ((other@ % 32) as u32)) as int)
    }

    fn srai(self, other: U6) -> (out: Self)
        ensures
            out == self.srai_spec(other),
    {
        let value: i32 = Bitcast::<i32>::bitcast(self);
        let count: u32 = other.as_u32();
        Bitcast::<u32>::bitcast(Wrapping::wrapping_shr(value, count))
    }
}

impl Mul for u32 {
    open spec fn mul_spec(self, other: Self) -> Self {
        wrap32(self * other)
    }

    fn mul(self, other: Self) -> (out: Self)
        ensures
            out == self.mul_spec(other),
    {
        Wrapping::wrapping_mul(self, other)
    }
}

impl Mulh for u32 {
    open spec fn mulh_spec(self, other: Self) -> Self {
        wrap32((signed32(self) * signed32(other)) / 0x1_0000_0000)
    }

    fn mulh(self, other: Self) -> (out: Self)
        ensures
            out == self.mulh_spec(other),
    {
        let a: i32 = Bitcast::<i32>::bitcast(self);
        let b: i32 = Bitcast::<i32>::bitcast(other);
        proof {
            lemma_high_half_signed32(a as int, b as int);
        }
        let halves: (i32, i32) = Widening::widening_mul(a, b);
        Bitcast::<u32>::bitcast(halves.1)
    }
}

impl Mulhu for u32 {
    open spec fn mulhu_spec(self, other: Self) -> Self {
        ((self * other) / 0x1_0000_0000) as u32
    }

    fn mulhu(self, other: Self) -> (out: Self)
        ensures
            out == self.mulhu_spec(other),
    {
        let halves: (u32, u32) = Widening::widening_mul(self, other);
        halves.1
    }
}

impl Mulhsu for u32 {
    open spec fn mulhsu_spec(self, other: Self) -> Self {
        wrap32((signed32(self) * other) / 0x1_0000_0000)
    }

    fn mulhsu(self, other: Self) -> (out: Self)
        ensures
            out == self.mulhsu_spec(other),
    {
        let halves: (u32, u32) = Widening::widening_mul(self, other);
        assert(0 <= self * other <= u32::MAX * u32::MAX) by (nonlinear_arith)
            requires
                0 <= self <= u32::MAX,
                0 <= other <= u32::MAX,
        ;
        if self < 0x8000_0000 {
            halves.1
        } else {
            assert((self - 0x1_0000_0000) * other == self * other - 0x1_0000_0000 * other) by (nonlinear_arith);
            Wrapping::wrapping_sub(halves.1, other)
        }
    }
}

impl Div for u32 {
    open spec fn div_spec(self, other: Self) -> Self {
        if other == 0 {
            u32::MAX
        } else if signed32(self) == i32::MIN && signed32(other) == -1 {
            self
        } else {
            wrap32(trunc_div(signed32(self), signed32(other)))
        }
    }

    fn div(self, other: Self) -> (out: Self)
        ensures
            out == self.div_spec(other),
    {
        if other == 0 {
            u32::MAX
        } else {
            let a: i32 = Bitcast::<i32>::bitcast(self);
            let b: i32 = Bitcast::<i32>::bitcast(other);
            proof {
                lemma_trunc_div_bounds(a as int, b as int);
            }
            Bitcast::<u32>::bitcast(Wrapping::wrapping_div(a, b))
        }
    }
}

impl Divu for u32 {
    open spec fn divu_spec(self, other: Self) -> Self {
        if other == 0 {
            u32::MAX
        } else {
            self / other
        }
    }

    fn divu(self, other: Self) -> (out: Self)
        ensures
            out == self.divu_spec(other),
    {
        if other == 0 {
            u32::MAX
        } else {
            Wrapping::wrapping_div(self, other)
        }
    }
}

impl Rem for u32 {
    open spec fn rem_spec(self, other: Self) -> Self {
        if other == 0 {
            self
        } else if signed32(self) == i32::MIN && signed32(other) == -1 {
            0
        } else {
            wrap32(trunc_rem(signed32(self), signed32(other)))
        }
    }

    fn rem(self, other: Self) -> (out: Self)
        ensures
            out == self.rem_spec(other),
    {
        if other == 0 {
            self
        } else {
            let a: i32 = Bitcast::<i32>::bitcast(self);
            let b: i32 = Bitcast::<i32>::bitcast(other);
            proof {
                lemma_trunc_div_bounds(a as int, b as int);
            }
            Bitcast::<u32>::bitcast(Wrapping::wrapping_rem(a, b))
        }
    }
}

impl Remu for u32 {
    open spec fn remu_spec(self, other: Self) -> Self {
        if other == 0 {
            self
        } else {
            self % other
        }
    }

    fn remu(self, other: Self) -> (out: Self)
        ensures
            out == self.remu_spec(other),
    {
        if other == 0 {
            self
        } else {
            Wrapping::wrapping_rem(self, other)
        }
    }
}

impl BaseMath for u32 {
}

impl Add for u64 {
    open spec fn add_spec(self, other: Self) -> Self {
        wrap64(self + other)
    }

    fn add(self, other: Self) -> (out: Self)
        ensures
            out == self.add_spec(other),
    {
        Wrapping::wrapping_add(self, other)
    }
}

impl Sub for u64 {
    open spec fn sub_spec(self, other: Self) -> Self {
        wrap64(self - other)
    }

    fn sub(self, other: Self) -> (out: Self)
        ensures
            out == self.sub_spec(other),
    {
        Wrapping::wrapping_sub(self, other)
    }
}

impl Sll for u64 {
    open spec fn sll_spec(self, other: Self) -> Self {
        self << ((other % 64) as u32)
    }

    fn sll(self, other: Self) -> (out: Self)
        ensures
            out == self.sll_spec(other),
    {
        let count: u32 = As::<u32>::cast(other);
        assert(count % 64 == other % 64);
        Wrapping::wrapping_shl(self, count)
    }
}

impl Srl for u64 {
    open spec fn srl_spec(self, other: Self) -> Self {
        self >> ((other % 64) as u32)
    }

    fn srl(self, other: Self) -> (out: Self)
        ensures
            out == self.srl_spec(other),
    {
        let count: u32 = As::<u32>::cast(other);
        assert(count % 64 == other % 64);
        Wrapping::wrapping_shr(self, count)
    }
}

impl Sra for u64 {
    open spec fn sra_spec(self, other: Self) -> Self {
        wrap64(((signed64(self) as i64) >> ((other % 64) as u32)) as int)
    }

    fn sra(self, other: Self) -> (out: Self)
        ensures
            out == self.sra_spec(other),
    {
        let value: i64 = Bitcast::<i64>::bitcast(self);
        let count: u32 = As::<u32>::cast(other);
        assert(count % 64 == other % 64);
        Bitcast::<u64>::bitcast(Wrapping::wrapping_shr(value, count))
    }
}

impl Slt for u64 {
    open spec fn slt_spec(self, other: Self) -> Self {
        if signed64(self) < signed64(other) {
            1
        } else {
            0
        }
    }

    fn slt(self, other: Self) -> (out: Self)
        ensures
            out == self.slt_spec(other),
    {
        let a: i64 = Bitcast::<i64>::bitcast(self);
        let b: i64 = Bitcast::<i64>::bitcast(other);
        As::<u64>::cast(a < b)
    }
}

impl Sltu for u64 {
    open spec fn sltu_spec(self, other: Self) -> Self {
        if self < other {
            1
        } else {
            0
        }
    }

    fn sltu(self, other: Self) -> (out: Self)
        ensures
            out == self.sltu_spec(other),
    {
        As::<u64>::cast(self < other)
    }
}

impl Xor for u64 {
    open spec fn xor_spec(self, other: Self) -> Self {
        self ^ other
    }

    fn xor(self, other: Self) -> (out: Self)
        ensures
            out == self.xor_spec(other),
    {
        self ^ other
    }
}

impl Or for u64 {
    open spec fn or_spec(self, other: Self) -> Self {
        self | other
    }

    fn or(self, other: Self) -> (out: Self)
        ensures
            out == self.or_spec(other),
    {
        self | other
    }
}

impl And for u64 {
    open spec fn and_spec(self, other: Self) -> Self {
        self & other
    }

    fn and(self, other: Self) -> (out: Self)
        ensures
            out == self.and_spec(other),
    {
        self & other
    }
}

impl Addi for u64 {
    open spec fn addi_spec(self, other: U12) -> Self {
        wrap64(self + other.signed())
    }

    fn addi(self, other: U12) -> (out: Self)
        ensures
            out == self.addi_spec(other),
    {
        let imm: i64 = As::<i64>::cast(other.sign_extend());
        UnsignedWrapping::wrapping_add_signed(self, imm)
    }
}

impl Slti for u64 {
    open spec fn slti_spec(self, other: U12) -> Self {
        if signed64(self) < other.signed() {
            1
        } else {
            0
        }
    }

    fn slti(self, other: U12) -> (out: Self)
        ensures
            out == self.slti_spec(other),
    {
        let a: i64 = Bitcast::<i64>::bitcast(self);
        let b: i64 = As::<i64>::cast(other.sign_extend());
        As::<u64>::cast(a < b)
    }
}

impl Sltiu for u64 {
    open spec fn sltiu_spec(self, other: U12) -> Self {
        if self < wrap64(other.signed()) {
            1
        } else {
            0
        }
    }

    fn sltiu(self, other: U12) -> (out: Self)
        ensures
            out == self.sltiu_spec(other),
    {
        let imm: u64 = As::<u64>::cast(other.sign_extend());
        As::<u64>::cast(self < imm)
    }
}

impl Xori for u64 {
    open spec fn xori_spec(self, other: U12) -> Self {
        self ^ wrap64(other.signed())
    }

    fn xori(self, other: U12) -> (out: Self)
        ensures
            out == self.xori_spec(other),
    {
        let imm: u64 = As::<u64>::cast(other.sign_extend());
        self ^ imm
    }
}

impl Ori for u64 {
    open spec fn ori_spec(self, other: U12) -> Self {
        self | wrap64(other.signed())
    }

    fn ori(self, other: U12) -> (out: Self)
        ensures
            out == self.ori_spec(other),
    {
        let imm: u64 = As::<u64>::cast(other.sign_extend());
        self | imm
    }
}

impl Andi for u64 {
    open spec fn andi_spec(self, other: U12) -> Self {
        self & wrap64(other.signed())
    }

    fn andi(self, other: U12) -> (out: Self)
        ensures
            out == self.andi_spec(other),
    {
        let imm: u64 = As::<u64>::cast(other.sign_extend());
        self & imm
    }
}

impl Slli for u64 {
    open spec fn slli_spec(self, other: U6) -> Self {
        self << ((other@ % 64) as u32)
    }

    fn slli(self, other: U6) -> (out: Self)
        ensures
            out == self.slli_spec(other),
    {
        let count: u32 = other.as_u32();
        Wrapping::wrapping_shl(self, count)
    }
}

impl Srli for u64 {
    open spec fn srli_spec(self, other: U6) -> Self {
        self >> ((other@ % 64) as u32)
    }

    fn srli(self, other: U6) -> (out: Self)
        ensures
            out == self.srli_spec(other),
    {
        let count: u32 = other.as_u32();
        Wrapping::wrapping_shr(self, count)
    }
}

impl Srai for u64 {
    open spec fn srai_spec(self, other: U6) -> Self {
        wrap64(((signed64(self) as i64) >> ((other@ % 64) as u32)) as int)
    }

    fn srai(self, other: U6) -> (out: Self)
        ensures
            out == self.srai_spec(other),
    {
        let value: i64 = Bitcast::<i64>::bitcast(self);
        let count: u32 = other.as_u32();
        Bitcast::<u64>::bitcast(Wrapping::wrapping_shr(value, count))
    }
}

impl Mul for u64 {
    open spec fn mul_spec(self, other: Self) -> Self {
        wrap64(self * other)
    }

    fn mul(self, other: Self) -> (out: Self)
        ensures
            out == self.mul_spec(other),
    {
        Wrapping::wrapping_mul(self, other)
    }
}

impl Mulh for u64 {
    open spec fn mulh_spec(self, other: Self) -> Self {
        wrap64((signed64(self) * signed64(other)) / 0x1_0000_0000_0000_0000)
    }

    fn mulh(self, other: Self) -> (out: Self)
        ensures
            out == self.mulh_spec(other),
    {
        let a: i64 = Bitcast::<i64>::bitcast(self);
        let b: i64 = Bitcast::<i64>::bitcast(other);
        proof {
            lemma_high_half_signed64(a as int, b as int);
        }
        let halves: (i64, i64) = Widening::widening_mul(a, b);
        Bitcast::<u64>::bitcast(halves.1)
    }
}

impl Mulhu for u64 {
    open spec fn mulhu_spec(self, other: Self) -> Self {
        ((self * other) / 0x1_0000_0000_0000_0000) as u64
    }

    fn mulhu(self, other: Self) -> (out: Self)
        ensures
            out == self.mulhu_spec(other),
    {
        let halves: (u64, u64) = Widening::widening_mul(self, other);
        halves.1
    }
}

impl Mulhsu for u64 {
    open spec fn mulhsu_spec(self, other: Self) -> Self {
        wrap64((signed64(self) * other) / 0x1_0000_0000_0000_0000)
    }

    fn mulhsu(self, other: Self) -> (out: Self)
        ensures
            out == self.mulhsu_spec(other),
    {
        let halves: (u64, u64) = Widening::widening_mul(self, other);
        assert(0 <= self * other <= u64::MAX * u64::MAX) by (nonlinear_arith)
            requires
                0 <= self <= u64::MAX,
                0 <= other <= u64::MAX,
        ;
        if self < 0x8000_0000_0000_0000 {
            halves.1
        } else {
            assert((self - 0x1_0000_0000_0000_0000) * other == self * other - 0x1_0000_0000_0000_0000 * other) by (nonlinear_arith);
            Wrapping::wrapping_sub(halves.1, other)
        }
    }
}

impl Div for u64 {
    open spec fn div_spec(self, other: Self) -> Self {
        if other == 0 {
            u64::MAX
        } else if signed64(self) == i64::MIN && signed64(other) == -1 {
            self
        } else {
            wrap64(trunc_div(signed64(self), signed64(other)))
        }
    }

    fn div(self, other: Self) -> (out: Self)
        ensures
            out == self.div_spec(other),
    {
        if other == 0 {
            u64::MAX
        } else {
            let a: i64 = Bitcast::<i64>::bitcast(self);
            let b: i64 = Bitcast::<i64>::bitcast(other);
            proof {
                lemma_trunc_div_bounds(a as int, b as int);
            }
            Bitcast::<u64>::bitcast(Wrapping::wrapping_div(a, b))
        }
    }
}

impl Divu for u64 {
    open spec fn divu_spec(self, other: Self) -> Self {
        if other == 0 {
            u64::MAX
        } else {
            self / other
        }
    }

    fn divu(self, other: Self) -> (out: Self)
        ensures
            out == self.divu_spec(other),
    {
        if other == 0 {
            u64::MAX
        } else {
            Wrapping::wrapping_div(self, other)
        }
    }
}

impl Rem for u64 {
    open spec fn rem_spec(self, other: Self) -> Self {
        if other == 0 {
            self
        } else if signed64(self) == i64::MIN && signed64(other) == -1 {
            0
        } else {
            wrap64(trunc_rem(signed64(self), signed64(other)))
        }
    }

    fn rem(self, other: Self) -> (out: Self)
        ensures
            out == self.rem_spec(other),
    {
        if other == 0 {
            self
        } else {
            let a: i64 = Bitcast::<i64>::bitcast(self);
            let b: i64 = Bitcast::<i64>::bitcast(other);
            proof {
                lemma_trunc_div_bounds(a as int, b as int);
            }
            Bitcast::<u64>::bitcast(Wrapping::wrapping_rem(a, b))
        }
    }
}

impl Remu for u64 {
    open spec fn remu_spec(self, other: Self) -> Self {
        if other == 0 {
            self
        } else {
            self % other
        }
    }

    fn remu(self, other: Self) -> (out: Self)
        ensures
            out == self.remu_spec(other),
    {
        if other == 0 {
            self
        } else {
            Wrapping::wrapping_rem(self, other)
        }
    }
}

impl BaseMath for u64 {
}

impl Addw for u64 {
    open spec fn addw_spec(self, other: Self) -> Self {
        sext32(wrap32(low32(self) + low32(other)))
    }

    fn addw(self, other: Self) -> (out: Self)
        ensures
            out == self.addw_spec(other),
    {
        let a: u32 = As::<u32>::cast(self);
        let b: u32 = As::<u32>::cast(other);
        extend32(Wrapping::wrapping_add(a, b))
    }
}

impl Subw for u64 {
    open spec fn subw_spec(self, other: Self) -> Self {
        sext32(wrap32(low32(self) - low32(other)))
    }

    fn subw(self, other: Self) -> (out: Self)
        ensures
            out == self.subw_spec(other),
    {
        let a: u32 = As::<u32>::cast(self);
        let b: u32 = As::<u32>::cast(other);
        extend32(Wrapping::wrapping_sub(a, b))
    }
}

impl Sllw for u64 {
    open spec fn sllw_spec(self, other: Self) -> Self {
        sext32(low32(self) << ((other % 32) as u32))
    }

    fn sllw(self, other: Self) -> (out: Self)
        ensures
            out == self.sllw_spec(other),
    {
        let a: u32 = As::<u32>::cast(self);
        let count: u32 = As::<u32>::cast(other);
        assert(count % 32 == other % 32);
        extend32(Wrapping::wrapping_shl(a, count))
    }
}

impl Slliw for u64 {
    open spec fn slliw_spec(self, other: Self) -> Self {
        sext32(low32(self) << ((other % 32) as u32))
    }

    fn slliw(self, other: Self) -> (out: Self)
        ensures
            out == self.slliw_spec(other),
    {
        let a: u32 = As::<u32>::cast(self);
        let count: u32 = As::<u32>::cast(other);
        assert(count % 32 == other % 32);
        extend32(Wrapping::wrapping_shl(a, count))
    }
}

impl Srlw for u64 {
    open spec fn srlw_spec(self, other: Self) -> Self {
        sext32(low32(self) >> ((other % 32) as u32))
    }

    fn srlw(self, other: Self) -> (out: Self)
        ensures
            out == self.srlw_spec(other),
    {
        let a: u32 = As::<u32>::cast(self);
        let count: u32 = As::<u32>::cast(other);
        assert(count % 32 == other % 32);
        extend32(Wrapping::wrapping_shr(a, count))
    }
}

impl Srliw for u64 {
    open spec fn srliw_spec(self, other: Self) -> Self {
        sext32(low32(self) >> ((other % 32) as u32))
    }

    fn srliw(self, other: Self) -> (out: Self)
        ensures
            out == self.srliw_spec(other),
    {
        let a: u32 = As::<u32>::cast(self);
        let count: u32 = As::<u32>::cast(other);
        assert(count % 32 == other % 32);
        extend32(Wrapping::wrapping_shr(a, count))
    }
}

impl Sraw for u64 {
    open spec fn sraw_spec(self, other: Self) -> Self {
        wrap64((((signed32(low32(self)) as i32) >> ((other % 32) as u32))) as int)
    }

    fn sraw(self, other: Self) -> (out: Self)
        ensures
            out == self.sraw_spec(other),
    {
        let a: u32 = As::<u32>::cast(self);
        let value: i32 = Bitcast::<i32>::bitcast(a);
        let count: u32 = As::<u32>::cast(other);
        assert(count % 32 == other % 32);
        As::<u64>::cast(Wrapping::wrapping_shr(value, count))
    }
}

impl Sraiw for u64 {
    open spec fn sraiw_spec(self, other: Self) -> Self {
        wrap64((((signed32(low32(self)) as i32) >> ((other % 32) as u32))) as int)
    }

    fn sraiw(self, other: Self) -> (out: Self)
        ensures
            out == self.sraiw_spec(other),
    {
        let a: u32 = As::<u32>::cast(self);
        let value: i32 = Bitcast::<i32>::bitcast(a);
        let count: u32 = As::<u32>::cast(other);
        assert(count % 32 == other % 32);
        As::<u64>::cast(Wrapping::wrapping_shr(value, count))
    }
}

impl Addiw for u64 {
    open spec fn addiw_spec(self, other: U12) -> Self {
        sext32(wrap32(low32(self) + other.signed()))
    }

    fn addiw(self, other: U12) -> (out: Self)
        ensures
            out == self.addiw_spec(other),
    {
        let a: u32 = As::<u32>::cast(self);
        let imm: i32 = As::<i32>::cast(other.sign_extend());
        extend32(UnsignedWrapping::wrapping_add_signed(a, imm))
    }
}

impl BaseMathW for u64 {
}

} // verus!
