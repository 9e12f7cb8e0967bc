use crate::reg::{
    flag, with_flag, with_nz, set_flag, set_nz, get_flag, lemma_with_flag, FLAG_ALWAYS_ONE, FLAG_B,
    FLAG_C, FLAG_D, FLAG_I, FLAG_N, FLAG_V, FLAG_Z,
};
use crate::execute::signed8;
use crate::util::wrap8;
use vstd::prelude::*;

verus! {

/// 1 when the carry flag of `p` is set, else 0.
pub open spec fn carry_in(p: u8) -> int {
    if flag(p, FLAG_C) {
        1
    } else {
        0
    }
}

/// Binary addition with carry: the new accumulator and the new P.
/// V is set when both operands have the same sign and the result's sign differs.
pub open spec fn adc_binary(p: u8, a: u8, v: u8) -> (u8, u8) {
    let sum = a + v + carry_in(p);
    let r = wrap8(sum);
    let overflow = (a < 128) == (v < 128) && (r < 128) != (a < 128);
    (r, with_flag(with_flag(with_nz(p, r), FLAG_C, sum > 255), FLAG_V, overflow))
}

/// Decimal (BCD) addition with carry as the NMOS 6502 performs it: Z comes
/// from the binary sum, N and V from the intermediate high digit before its
/// adjustment, C from the adjusted high digit.
pub open spec fn adc_decimal(p: u8, a: u8, v: u8) -> (u8, u8) {
    let c = carry_in(p);
    let lo0 = a % 16 + v % 16 + c;
    let lo = if lo0 >= 10 {
        (lo0 + 6) % 16 + 16
    } else {
        lo0
    };
    let hi0 = (a - a % 16) + (v - v % 16) + lo;
    let negative = hi0 % 256 >= 128;
    let overflow = (a < 128) == (v < 128) && (hi0 % 256 >= 128) != (a >= 128);
    let hi = if hi0 >= 0xa0 {
        hi0 + 0x60
    } else {
        hi0
    };
    let zero = wrap8(a + v + c) == 0;
    (
        wrap8(hi),
        with_flag(
            with_flag(with_flag(with_flag(p, FLAG_Z, zero), FLAG_N, negative), FLAG_V, overflow),
            FLAG_C,
            hi >= 0x100,
        ),
    )
}

/// ADC: decimal when D is set, binary otherwise.
pub open spec fn adc(p: u8, a: u8, v: u8) -> (u8, u8) {
    if flag(p, FLAG_D) {
        adc_decimal(p, a, v)
    } else {
        adc_binary(p, a, v)
    }
}

/// The result byte of decimal subtraction with borrow on the NMOS 6502.
pub open spec fn sbc_decimal_result(p: u8, a: u8, v: u8) -> u8 {
    let lo0 = a % 16 - v % 16 + carry_in(p) - 1;
    let lo = if lo0 < 0 {
        (lo0 + 26) % 16 - 16
    } else {
        lo0
    };
    let hi0 = (a - a % 16) - (v - v % 16) + lo;
    let hi = if hi0 < 0 {
        hi0 - 0x60
    } else {
        hi0
    };
    wrap8(hi)
}

/// SBC: the flags are always those of the binary subtraction (addition of the
/// complement); in decimal mode the result byte is BCD-adjusted.
pub open spec fn sbc(p: u8, a: u8, v: u8) -> (u8, u8) {
    let (r, p2) = adc_binary(p, a, (255 - v) as u8);
    if flag(p, FLAG_D) {
        (sbc_decimal_result(p, a, v), p2)
    } else {
        (r, p2)
    }
}

/// CMP, CPX, CPY: C when `reg >= v`, Z and N from `reg - v`.
pub open spec fn compare(p: u8, reg: u8, v: u8) -> u8 {
    with_flag(with_nz(p, wrap8(reg - v)), FLAG_C, reg >= v)
}

/// BIT: Z from `a & v`, N and V copied from bits 7 and 6 of `v`.
pub open spec fn bit_test(p: u8, a: u8, v: u8) -> u8 {
    with_flag(with_flag(with_flag(p, FLAG_Z, a & v == 0), FLAG_N, v >= 128), FLAG_V, v % 128 >= 64)
}

/// ASL: shift left, bit 7 into C.
pub open spec fn asl(p: u8, v: u8) -> (u8, u8) {
    let r = wrap8(v * 2);
    (r, with_flag(with_nz(p, r), FLAG_C, v >= 128))
}

/// LSR: shift right, bit 0 into C.
pub open spec fn lsr(p: u8, v: u8) -> (u8, u8) {
    let r = (v / 2) as u8;
    (r, with_flag(with_nz(p, r), FLAG_C, v % 2 == 1))
}

/// ROL: rotate left through C.
pub open spec fn rol(p: u8, v: u8) -> (u8, u8) {
    let r = wrap8(v * 2 + carry_in(p));
    (r, with_flag(with_nz(p, r), FLAG_C, v >= 128))
}

/// ROR: rotate right through C.
pub open spec fn ror(p: u8, v: u8) -> (u8, u8) {
    let r = (v / 2 + carry_in(p) * 128) as u8;
    (r, with_flag(with_nz(p, r), FLAG_C, v % 2 == 1))
}

fn carry_value(p: u8) -> (r: u16)
    ensures
        r == carry_in(p),
{
    if get_flag(p, FLAG_C) {
        1
    } else {
        0
    }
}

pub fn exec_adc_binary(p: u8, a: u8, v: u8) -> (r: (u8, u8))
    ensures
        r == adc_binary(p, a, v),
{
    let sum: u16 = a as u16 + v as u16 + carry_value(p);
    let r = (sum % 256) as u8;
    let overflow = (a < 128) == (v < 128) && (r < 128) != (a < 128);
    (r, set_flag(set_flag(set_nz(p, r), FLAG_C, sum > 255), FLAG_V, overflow))
}

pub fn exec_adc_decimal(p: u8, a: u8, v: u8) -> (r: (u8, u8))
    ensures
        r == adc_decimal(p, a, v),
{
    let c = carry_value(p);
    let a16 = a as u16;
    let v16 = v as u16;
    let lo0 = a16 % 16 + v16 % 16 + c;
    let lo = if lo0 >= 10 {
        (lo0 + 6) % 16 + 16
    } else {
        lo0
    };
    let hi0 = (a16 - a16 % 16) + (v16 - v16 % 16) + lo;
    let negative = hi0 % 256 >= 128;
    let overflow = (a < 128) == (v < 128) && (hi0 % 256 >= 128) != (a >= 128);
    let hi = if hi0 >= 0xa0 {
        hi0 + 0x60
    } else {
        hi0
    };
    let zero = (a16 + v16 + c) % 256 == 0;
    let p2 = set_flag(
        set_flag(set_flag(set_flag(p, FLAG_Z, zero), FLAG_N, negative), FLAG_V, overflow),
        FLAG_C,
        hi >= 0x100,
    );
    ((hi % 256) as u8, p2)
}

pub fn exec_adc(p: u8, a: u8, v: u8) -> (r: (u8, u8))
    ensures
        r == adc(p, a, v),
{
    if get_flag(p, FLAG_D) {
        exec_adc_decimal(p, a, v)
    } else {
        exec_adc_binary(p, a, v)
    }
}

pub fn exec_sbc(p: u8, a: u8, v: u8) -> (r: (u8, u8))
    ensures
        r == sbc(p, a, v),
{
    let (r, p2) = exec_adc_binary(p, a, 255 - v);
    if get_flag(p, FLAG_D) {
        let a16 = a as i32;
        let v16 = v as i32;
        let lo0: i32 = a16 % 16 - v16 % 16 + carry_value(p) as i32 - 1;
        let lo: i32 = if lo0 < 0 {
            (lo0 + 26) % 16 - 16
        } else {
            lo0
        };
        let hi0: i32 = (a16 - a16 % 16) - (v16 - v16 % 16) + lo;
        let hi: i32 = if hi0 < 0 {
            hi0 - 0x60
        } else {
            hi0
        };
        assert(wrap8(hi as int) == ((hi + 512) % 256) as u8);
        (((hi + 512) % 256) as u8, p2)
    } else {
        (r, p2)
    }
}

pub fn exec_compare(p: u8, reg: u8, v: u8) -> (r: u8)
    ensures
        r == compare(p, reg, v),
{
    set_flag(set_nz(p, reg.wrapping_sub(v)), FLAG_C, reg >= v)
}

pub fn exec_bit_test(p: u8, a: u8, v: u8) -> (r: u8)
    ensures
        r == bit_test(p, a, v),
{
    set_flag(set_flag(set_flag(p, FLAG_Z, a & v == 0), FLAG_N, v >= 128), FLAG_V, v % 128 >= 64)
}

pub fn exec_asl(p: u8, v: u8) -> (r: (u8, u8))
    ensures
        r == asl(p, v),
{
    let r = ((v as u16 * 2) % 256) as u8;
    (r, set_flag(set_nz(p, r), FLAG_C, v >= 128))
}

pub fn exec_lsr(p: u8, v: u8) -> (r: (u8, u8))
    ensures
        r == lsr(p, v),
{
    let r = v / 2;
    (r, set_flag(set_nz(p, r), FLAG_C, v % 2 == 1))
}

pub fn exec_rol(p: u8, v: u8) -> (r: (u8, u8))
    ensures
        r == rol(p, v),
{
    let r = ((v as u16 * 2 + carry_value(p)) % 256) as u8;
    (r, set_flag(set_nz(p, r), FLAG_C, v >= 128))
}

pub fn exec_ror(p: u8, v: u8) -> (r: (u8, u8))
    ensures
        r == ror(p, v),
{
    let r = (v as u16 / 2 + carry_value(p) * 128) as u8;
    (r, set_flag(set_nz(p, r), FLAG_C, v % 2 == 1))
}

/// Whether both decimal digits of `x` are at most nine.
pub open spec fn is_bcd(x: u8) -> bool {
    x / 16 <= 9 && x % 16 <= 9
}

/// The number that the two decimal digits of `x` stand for.
pub open spec fn bcd_value(x: u8) -> int {
    (x / 16) * 10 + x % 16
}

proof fn lemma_decimal_digits(a: u8, v: u8, c: int)
    requires
        0 <= c <= 1,
        is_bcd(a),
        is_bcd(v),
    ensures
        ({
            let lo0 = a % 16 + v % 16 + c;
            let lo = if lo0 >= 10 {
                (lo0 + 6) % 16 + 16
            } else {
                lo0
            };
            let hi0 = (a - a % 16) + (v - v % 16) + lo;
            let hi = if hi0 >= 0xa0 {
                hi0 + 0x60
            } else {
                hi0
            };
            let s = bcd_value(a) + bcd_value(v) + c;
            &&& is_bcd(wrap8(hi))
            &&& bcd_value(wrap8(hi)) == s % 100
            &&& (hi >= 0x100) == (s >= 100)
        }),
{
    let ah: int = a as int / 16;
    let al: int = a as int % 16;
    let vh: int = v as int / 16;
    let vl: int = v as int % 16;
    let s = bcd_value(a) + bcd_value(v) + c;
    let lo0 = al + vl + c;
    let lo = if lo0 >= 10 {
        (lo0 + 6) % 16 + 16
    } else {
        lo0
    };
    let hi0 = (a - a % 16) + (v - v % 16) + lo;
    let h: int = if lo0 >= 10 {
        ah + vh + 1
    } else {
        ah + vh
    };
    let l: int = if lo0 >= 10 {
        lo0 - 10
    } else {
        lo0
    };
    assert(a - a % 16 == 16 * ah);
    assert(v - v % 16 == 16 * vh);
    if lo0 >= 10 {
        assert((lo0 + 6) % 16 == lo0 - 10);
    }
    assert(hi0 == 16 * h + l);
    assert(s == 10 * h + l);
    assert(0 <= l <= 9);
    assert(0 <= h <= 19);
    let hi = if hi0 >= 0xa0 {
        hi0 + 0x60
    } else {
        hi0
    };
    let r = wrap8(hi);
    if h >= 10 {
        assert(hi == 16 * (h - 10) + l + 256);
        assert(r as int == 16 * (h - 10) + l);
        assert(r / 16 == h - 10);
        assert(r % 16 == l);
        assert(s % 100 == s - 100);
    } else {
        assert(hi == 16 * h + l);
        assert(r as int == 16 * h + l);
        assert(r / 16 == h);
        assert(r % 16 == l);
        assert(s % 100 == s);
    }
}

/// Decimal-mode ADC adds decimal numbers: with D set and two operands made of
/// decimal digits, the accumulator becomes the two low decimal digits of the
/// sum of the operands and the carry, again as decimal digits, and C is set
/// exactly when that sum reaches one hundred.
pub proof fn lemma_adc_decimal_sum(p: u8, a: u8, v: u8)
    requires
        flag(p, FLAG_D),
        is_bcd(a),
        is_bcd(v),
    ensures
        ({
            let s = bcd_value(a) + bcd_value(v) + carry_in(p);
            &&& is_bcd(adc(p, a, v).0)
            &&& bcd_value(adc(p, a, v).0) == s % 100
            &&& flag(adc(p, a, v).1, FLAG_C) == (s >= 100)
        }),
{
    let c = carry_in(p);
    let lo0 = a % 16 + v % 16 + c;
    let lo = if lo0 >= 10 {
        (lo0 + 6) % 16 + 16
    } else {
        lo0
    };
    let hi0 = (a - a % 16) + (v - v % 16) + lo;
    let hi = if hi0 >= 0xa0 {
        hi0 + 0x60
    } else {
        hi0
    };
    lemma_decimal_digits(a, v, c);
    let zero = wrap8(a + v + c) == 0;
    let negative = hi0 % 256 >= 128;
    let overflow = (a < 128) == (v < 128) && (hi0 % 256 >= 128) != (a >= 128);
    lemma_with_flag(
        with_flag(with_flag(with_flag(p, FLAG_Z, zero), FLAG_N, negative), FLAG_V, overflow),
        FLAG_C,
        hi >= 0x100,
        FLAG_C,
    );
}

proof fn lemma_signed_overflow(a: u8, v: u8, c: int)
    requires
        0 <= c <= 1,
    ensures
        ({
            let r = wrap8(a + v + c);
            let t = signed8(a) + signed8(v) + c;
            ((a < 128) == (v < 128) && (r < 128) != (a < 128)) == (t < -128 || t > 127)
        }),
{
    let sum = a + v + c;
    if a < 128 && v < 128 {
        assert(wrap8(sum) as int == sum);
    } else if a >= 128 && v >= 128 {
        assert(wrap8(sum) as int == sum - 256);
    }
}

/// Binary-mode ADC adds bytes: with D clear the accumulator becomes the sum
/// of the operands and the carry modulo 256, C is set exactly when that sum
/// exceeds a byte, V exactly when the sum taken as signed bytes leaves the
/// range -128..=127, and Z and N tell whether the result is zero or negative.
pub proof fn lemma_adc_binary_sum(p: u8, a: u8, v: u8)
    requires
        !flag(p, FLAG_D),
    ensures
        ({
            let s = a + v + carry_in(p);
            let t = signed8(a) + signed8(v) + carry_in(p);
            &&& adc(p, a, v).0 as int == s % 256
            &&& flag(adc(p, a, v).1, FLAG_C) == (s >= 256)
            &&& flag(adc(p, a, v).1, FLAG_V) == (t < -128 || t > 127)
            &&& flag(adc(p, a, v).1, FLAG_Z) == (s % 256 == 0)
            &&& flag(adc(p, a, v).1, FLAG_N) == (s % 256 >= 128)
        }),
{
    let c = carry_in(p);
    let sum = a + v + c;
    let r = wrap8(sum);
    let overflow = (a < 128) == (v < 128) && (r < 128) != (a < 128);
    let t = signed8(a) + signed8(v) + c;
    lemma_signed_overflow(a, v, c);
    let p1 = with_flag(p, FLAG_Z, r == 0);
    let p2 = with_flag(p1, FLAG_N, r >= 0x80);
    let p3 = with_flag(p2, FLAG_C, sum > 255);
    lemma_with_flag(p, FLAG_Z, r == 0, FLAG_N);
    lemma_with_flag(p, FLAG_Z, r == 0, FLAG_C);
    lemma_with_flag(p, FLAG_Z, r == 0, FLAG_V);
    lemma_with_flag(p1, FLAG_N, r >= 0x80, FLAG_Z);
    lemma_with_flag(p1, FLAG_N, r >= 0x80, FLAG_C);
    lemma_with_flag(p1, FLAG_N, r >= 0x80, FLAG_V);
    lemma_with_flag(p2, FLAG_C, sum > 255, FLAG_Z);
    lemma_with_flag(p2, FLAG_C, sum > 255, FLAG_N);
    lemma_with_flag(p2, FLAG_C, sum > 255, FLAG_V);
    lemma_with_flag(p3, FLAG_V, overflow, FLAG_Z);
    lemma_with_flag(p3, FLAG_V, overflow, FLAG_N);
    lemma_with_flag(p3, FLAG_V, overflow, FLAG_C);
    lemma_with_flag(p3, FLAG_V, overflow, FLAG_V);
}

/// Decimal-mode SBC subtracts decimal numbers: with D set and two operands
/// made of decimal digits, the accumulator becomes the difference of the
/// operands less the borrow (C clear), modulo one hundred, as decimal digits,
/// and C is set exactly when that difference is not negative.
pub proof fn lemma_sbc_decimal_difference(p: u8, a: u8, v: u8)
    requires
        flag(p, FLAG_D),
        is_bcd(a),
        is_bcd(v),
    ensures
        ({
            let d = bcd_value(a) - bcd_value(v) - (1 - carry_in(p));
            &&& is_bcd(sbc(p, a, v).0)
            &&& bcd_value(sbc(p, a, v).0) == (d + 100) % 100
            &&& flag(sbc(p, a, v).1, FLAG_C) == (d >= 0)
        }),
{
    let c = carry_in(p);
    let ah: int = a as int / 16;
    let al: int = a as int % 16;
    let vh: int = v as int / 16;
    let vl: int = v as int % 16;
    let d = bcd_value(a) - bcd_value(v) - (1 - c);
    let lo0 = al - vl + c - 1;
    let lo = if lo0 < 0 {
        (lo0 + 26) % 16 - 16
    } else {
        lo0
    };
    let hi0 = (a - a % 16) - (v - v % 16) + lo;
    let h: int = if lo0 < 0 {
        ah - vh - 1
    } else {
        ah - vh
    };
    let l: int = if lo0 < 0 {
        lo0 + 10
    } else {
        lo0
    };
    assert(a - a % 16 == 16 * ah);
    assert(v - v % 16 == 16 * vh);
    if lo0 < 0 {
        assert((lo0 + 26) % 16 == lo0 + 10);
    }
    assert(hi0 == 16 * h + l);
    assert(d == 10 * h + l);
    assert(0 <= l <= 9);
    assert(-10 <= h <= 9);
    let r = sbc_decimal_result(p, a, v);
    if h < 0 {
        assert(hi0 - 0x60 == 16 * (h + 10) + l - 256);
        assert(r as int == 16 * (h + 10) + l);
        assert(r / 16 == h + 10);
        assert(r % 16 == l);
        assert((d + 100) % 100 == d + 100);
    } else {
        assert(r as int == 16 * h + l);
        assert(r / 16 == h);
        assert(r % 16 == l);
        assert((d + 100) % 100 == d);
    }
    let nv = (255 - v) as u8;
    let sum = a + nv + c;
    let rb = wrap8(sum);
    let overflow = (a < 128) == (nv < 128) && (rb < 128) != (a < 128);
    assert((sum > 255) == (d >= 0));
    lemma_with_flag(with_nz(p, rb), FLAG_C, sum > 255, FLAG_C);
    lemma_with_flag(with_flag(with_nz(p, rb), FLAG_C, sum > 255), FLAG_V, overflow, FLAG_C);
}

/// CMP, CPX and CPY compare as unsigned bytes: afterwards C is set exactly
/// when the register is at least the operand, Z exactly when they are equal,
/// and N is bit 7 of their difference; I, D, V, B and the unused bit keep
/// their values.
pub proof fn lemma_compare_flags(p: u8, reg: u8, v: u8)
    ensures
        flag(compare(p, reg, v), FLAG_C) == (reg >= v),
        flag(compare(p, reg, v), FLAG_Z) == (reg == v),
        flag(compare(p, reg, v), FLAG_N) == ((reg - v + 256) % 256 >= 128),
        flag(compare(p, reg, v), FLAG_I) == flag(p, FLAG_I),
        flag(compare(p, reg, v), FLAG_D) == flag(p, FLAG_D),
        flag(compare(p, reg, v), FLAG_V) == flag(p, FLAG_V),
        flag(compare(p, reg, v), FLAG_B) == flag(p, FLAG_B),
        flag(compare(p, reg, v), FLAG_ALWAYS_ONE) == flag(p, FLAG_ALWAYS_ONE),
{
    let d = wrap8(reg - v);
    let p1 = with_flag(p, FLAG_Z, d == 0);
    let p2 = with_flag(p1, FLAG_N, d >= 0x80);
    assert(d as int == (reg - v + 256) % 256);
    assert((d == 0) == (reg == v));
    lemma_with_flag(p, FLAG_Z, d == 0, FLAG_N);
    lemma_with_flag(p, FLAG_Z, d == 0, FLAG_I);
    lemma_with_flag(p, FLAG_Z, d == 0, FLAG_D);
    lemma_with_flag(p, FLAG_Z, d == 0, FLAG_V);
    lemma_with_flag(p, FLAG_Z, d == 0, FLAG_B);
    lemma_with_flag(p, FLAG_Z, d == 0, FLAG_ALWAYS_ONE);
    lemma_with_flag(p1, FLAG_N, d >= 0x80, FLAG_Z);
    lemma_with_flag(p1, FLAG_N, d >= 0x80, FLAG_I);
    lemma_with_flag(p1, FLAG_N, d >= 0x80, FLAG_D);
    lemma_with_flag(p1, FLAG_N, d >= 0x80, FLAG_V);
    lemma_with_flag(p1, FLAG_N, d >= 0x80, FLAG_B);
    lemma_with_flag(p1, FLAG_N, d >= 0x80, FLAG_ALWAYS_ONE);
    lemma_with_flag(p2, FLAG_C, reg >= v, FLAG_Z);
    lemma_with_flag(p2, FLAG_C, reg >= v, FLAG_N);
    lemma_with_flag(p2, FLAG_C, reg >= v, FLAG_I);
    lemma_with_flag(p2, FLAG_C, reg >= v, FLAG_D);
    lemma_with_flag(p2, FLAG_C, reg >= v, FLAG_V);
    lemma_with_flag(p2, FLAG_C, reg >= v, FLAG_B);
    lemma_with_flag(p2, FLAG_C, reg >= v, FLAG_ALWAYS_ONE);
}

proof fn lemma_nz_then_carry(p: u8, value: u8, on: bool)
    ensures
        ({
            let q = with_flag(with_nz(p, value), FLAG_C, on);
            &&& flag(q, FLAG_C) == on
            &&& flag(q, FLAG_Z) == (value == 0)
            &&& flag(q, FLAG_N) == (value >= 128)
            &&& flag(q, FLAG_V) == flag(p, FLAG_V)
            &&& flag(q, FLAG_D) == flag(p, FLAG_D)
            &&& flag(q, FLAG_I) == flag(p, FLAG_I)
        }),
{
    let p1 = with_flag(p, FLAG_Z, value == 0);
    let p2 = with_flag(p1, FLAG_N, value >= 0x80);
    lemma_with_flag(p, FLAG_Z, value == 0, FLAG_Z);
    lemma_with_flag(p, FLAG_Z, value == 0, FLAG_V);
    lemma_with_flag(p, FLAG_Z, value == 0, FLAG_D);
    lemma_with_flag(p, FLAG_Z, value == 0, FLAG_I);
    lemma_with_flag(p1, FLAG_N, value >= 0x80, FLAG_Z);
    lemma_with_flag(p1, FLAG_N, value >= 0x80, FLAG_N);
    lemma_with_flag(p1, FLAG_N, value >= 0x80, FLAG_V);
    lemma_with_flag(p1, FLAG_N, value >= 0x80, FLAG_D);
    lemma_with_flag(p1, FLAG_N, value >= 0x80, FLAG_I);
    lemma_with_flag(p2, FLAG_C, on, FLAG_C);
    lemma_with_flag(p2, FLAG_C, on, FLAG_Z);
    lemma_with_flag(p2, FLAG_C, on, FLAG_N);
    lemma_with_flag(p2, FLAG_C, on, FLAG_V);
    lemma_with_flag(p2, FLAG_C, on, FLAG_D);
    lemma_with_flag(p2, FLAG_C, on, FLAG_I);
}

/// The shifts and rotates move the bits of the byte by one place: ASL
/// doubles it modulo 256, LSR halves it, ROL doubles it and adds the carry,
/// ROR halves it and puts the carry in bit 7. The bit shifted out lands in
/// C (bit 7 for ASL and ROL, bit 0 for LSR and ROR), Z and N describe the
/// result, and V, D and I keep their values.
pub proof fn lemma_shifts(p: u8, v: u8)
    ensures
        asl(p, v).0 as int == (2 * v) % 256,
        lsr(p, v).0 as int == v / 2,
        rol(p, v).0 as int == (2 * v + carry_in(p)) % 256,
        ror(p, v).0 as int == v / 2 + 128 * carry_in(p),
        flag(asl(p, v).1, FLAG_C) == (v >= 128),
        flag(rol(p, v).1, FLAG_C) == (v >= 128),
        flag(lsr(p, v).1, FLAG_C) == (v % 2 == 1),
        flag(ror(p, v).1, FLAG_C) == (v % 2 == 1),
        flag(asl(p, v).1, FLAG_Z) == (asl(p, v).0 == 0),
        flag(asl(p, v).1, FLAG_N) == (asl(p, v).0 >= 128),
        flag(lsr(p, v).1, FLAG_Z) == (v < 2),
        !flag(lsr(p, v).1, FLAG_N),
        flag(rol(p, v).1, FLAG_Z) == (rol(p, v).0 == 0),
        flag(rol(p, v).1, FLAG_N) == (rol(p, v).0 >= 128),
        flag(ror(p, v).1, FLAG_Z) == (ror(p, v).0 == 0),
        flag(ror(p, v).1, FLAG_N) == flag(p, FLAG_C),
        flag(asl(p, v).1, FLAG_V) == flag(p, FLAG_V),
        flag(lsr(p, v).1, FLAG_V) == flag(p, FLAG_V),
        flag(rol(p, v).1, FLAG_V) == flag(p, FLAG_V),
        flag(ror(p, v).1, FLAG_V) == flag(p, FLAG_V),
        flag(asl(p, v).1, FLAG_D) == flag(p, FLAG_D),
        flag(lsr(p, v).1, FLAG_D) == flag(p, FLAG_D),
        flag(rol(p, v).1, FLAG_D) == flag(p, FLAG_D),
        flag(ror(p, v).1, FLAG_D) == flag(p, FLAG_D),
{
    lemma_nz_then_carry(p, asl(p, v).0, v >= 128);
    lemma_nz_then_carry(p, lsr(p, v).0, v % 2 == 1);
    lemma_nz_then_carry(p, rol(p, v).0, v >= 128);
    lemma_nz_then_carry(p, ror(p, v).0, v % 2 == 1);
}

proof fn lemma_rol_then_ror(p: u8, v: u8)
    ensures
        ror(rol(p, v).1, rol(p, v).0).0 == v,
        flag(ror(rol(p, v).1, rol(p, v).0).1, FLAG_C) == flag(p, FLAG_C),
{
    let c = carry_in(p);
    let l = rol(p, v);
    lemma_nz_then_carry(p, l.0, v >= 128);
    let r: int = (2 * v + c) % 256;
    assert(l.0 as int == r);
    assert(r / 2 == v % 128 && r % 2 == c) by {
        if v >= 128 {
            assert(r == 2 * v + c - 256);
        } else {
            assert(r == 2 * v + c);
        }
    }
    let lr = ror(l.1, l.0);
    lemma_nz_then_carry(l.1, lr.0, l.0 % 2 == 1);
}

proof fn lemma_ror_then_rol(p: u8, v: u8)
    ensures
        rol(ror(p, v).1, ror(p, v).0).0 == v,
        flag(rol(ror(p, v).1, ror(p, v).0).1, FLAG_C) == flag(p, FLAG_C),
{
    let c = carry_in(p);
    let r = ror(p, v);
    lemma_nz_then_carry(p, r.0, v % 2 == 1);
    assert(r.0 as int == v / 2 + 128 * c);
    let rl = rol(r.1, r.0);
    lemma_nz_then_carry(r.1, rl.0, r.0 >= 128);
    assert((2 * (v / 2 + 128 * c) + v % 2) % 256 == v);
}

/// ROL followed by ROR, or ROR followed by ROL, gives back both the byte
/// and the carry it started with.
pub proof fn lemma_rotate_round_trip(p: u8, v: u8)
    ensures
        ror(rol(p, v).1, rol(p, v).0).0 == v,
        flag(ror(rol(p, v).1, rol(p, v).0).1, FLAG_C) == flag(p, FLAG_C),
        rol(ror(p, v).1, ror(p, v).0).0 == v,
        flag(rol(ror(p, v).1, ror(p, v).0).1, FLAG_C) == flag(p, FLAG_C),
{
    lemma_rol_then_ror(p, v);
    lemma_ror_then_rol(p, v);
}

/// BIT sets Z exactly when the accumulator and the operand have no bit in
/// common, and copies bit 7 of the operand into N and bit 6 into V; C, D
/// and I keep their values.
pub proof fn lemma_bit_test_flags(p: u8, a: u8, v: u8)
    ensures
        flag(bit_test(p, a, v), FLAG_Z) == (a & v == 0),
        flag(bit_test(p, a, v), FLAG_N) == (v & 0x80 != 0),
        flag(bit_test(p, a, v), FLAG_V) == (v & 0x40 != 0),
        flag(bit_test(p, a, v), FLAG_C) == flag(p, FLAG_C),
        flag(bit_test(p, a, v), FLAG_D) == flag(p, FLAG_D),
        flag(bit_test(p, a, v), FLAG_I) == flag(p, FLAG_I),
{
    let z = a & v == 0;
    let n = v >= 128;
    let o = v % 128 >= 64;
    let p1 = with_flag(p, FLAG_Z, z);
    let p2 = with_flag(p1, FLAG_N, n);
    assert((v & 0x80 != 0) == (v >= 128)) by (bit_vector);
    assert((v & 0x40 != 0) == (v % 128 >= 64)) by (bit_vector);
    lemma_with_flag(p, FLAG_Z, z, FLAG_Z);
    lemma_with_flag(p, FLAG_Z, z, FLAG_C);
    lemma_with_flag(p, FLAG_Z, z, FLAG_D);
    lemma_with_flag(p, FLAG_Z, z, FLAG_I);
    lemma_with_flag(p1, FLAG_N, n, FLAG_Z);
    lemma_with_flag(p1, FLAG_N, n, FLAG_N);
    lemma_with_flag(p1, FLAG_N, n, FLAG_C);
    lemma_with_flag(p1, FLAG_N, n, FLAG_D);
    lemma_with_flag(p1, FLAG_N, n, FLAG_I);
    lemma_with_flag(p2, FLAG_V, o, FLAG_Z);
    lemma_with_flag(p2, FLAG_V, o, FLAG_N);
    lemma_with_flag(p2, FLAG_V, o, FLAG_V);
    lemma_with_flag(p2, FLAG_V, o, FLAG_C);
    lemma_with_flag(p2, FLAG_V, o, FLAG_D);
    lemma_with_flag(p2, FLAG_V, o, FLAG_I);
}

/// Binary-mode SBC subtracts the operand and the borrow (C clear): the
/// accumulator becomes the difference modulo 256, C is set exactly when no
/// borrow was needed, and V exactly when the difference taken as signed
/// bytes leaves the range -128..=127.
pub proof fn lemma_sbc_binary_difference(p: u8, a: u8, v: u8)
    requires
        !flag(p, FLAG_D),
    ensures
        ({
            let d = a - v - (1 - carry_in(p));
            let t = signed8(a) - signed8(v) - (1 - carry_in(p));
            &&& sbc(p, a, v).0 as int == (d + 256) % 256
            &&& flag(sbc(p, a, v).1, FLAG_C) == (d >= 0)
            &&& flag(sbc(p, a, v).1, FLAG_V) == (t < -128 || t > 127)
        }),
{
    let nv = (255 - v) as u8;
    lemma_adc_binary_sum(p, a, nv);
    assert(signed8(nv) == -1 - signed8(v));
}

} // verus!
