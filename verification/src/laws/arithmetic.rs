//! What the arithmetic instructions compute, said in numbers: sums and
//! differences modulo 256, signed overflow, doubling and halving.

use vstd::prelude::*;
use crate::model::carry_of;
use crate::model::high_byte;
use crate::model::low_byte;
use crate::model::rotated;
use crate::model::shifted;
use crate::model::shifted_out;
use crate::model::word;
use crate::model::wrap8;
use crate::model::CpuView;
use crate::model::ShiftDirection;
use crate::status::flag_is_set;
use crate::status::lemma_arithmetic_flags;
use crate::status::lemma_result_flags;
use crate::status::lemma_three_flags;
use crate::status::with_flag;
use crate::status::CARRY;
use crate::status::NEGATIVE;
use crate::status::OVERFLOW;
use crate::status::ZERO;

verus! {

/// The byte `b` read as a signed number in two's complement.
pub open spec fn signed(b: u8) -> int {
    if b < 0x80 {
        b as int
    } else {
        b - 0x100
    }
}

/// Whether `i` can be written as a signed byte.
pub open spec fn fits_signed(i: int) -> bool {
    -0x80 <= i < 0x80
}

/// A word is made of its two bytes, and the two bytes of a word are the
/// ones it was made of.
pub proof fn lemma_word_bytes(w: u16, lo: u8, hi: u8)
    ensures
        word(low_byte(w), high_byte(w)) == w,
        low_byte(word(lo, hi)) == lo,
        high_byte(word(lo, hi)) == hi,
{
}

/// A shift to the left doubles modulo 256 and pushes bit 7 out; a shift to
/// the right halves and pushes bit 0 out. A rotation does the same and
/// lets the carry in at the free end.
pub proof fn lemma_shift_meaning(value: u8, carry: bool)
    ensures
        shifted(value, ShiftDirection::Left) == wrap8(2 * value),
        shifted(value, ShiftDirection::Right) == value / 2,
        shifted_out(value, ShiftDirection::Left) == (value >= 0x80),
        shifted_out(value, ShiftDirection::Right) == (value % 2 == 1),
        rotated(value, carry, ShiftDirection::Left) == wrap8(
            2 * value + if carry {
                1int
            } else {
                0int
            },
        ),
        rotated(value, carry, ShiftDirection::Right) == value / 2 + if carry {
            0x80int
        } else {
            0int
        },
{
    let left = value << 1u8;
    let right = value >> 1u8;
    assert(right == value / 2 && (value & 0x80 != 0) == (value >= 0x80) && (value & 0x01 != 0) == (
    value % 2 == 1) && (value < 0x80 ==> left == 2 * value) && (value >= 0x80 ==> left == 2 * value
        - 0x100) && left | 0x00 == left && left | 0x01 == left + 1 && right | 0x00 == right && right
        | 0x80 == right + 0x80) by (bit_vector)
        requires
            left == value << 1u8,
            right == value >> 1u8,
    ;
}

/// The overflow tests of addition and subtraction, which look at sign
/// bits only: the first tells that `a` and `m` have the same sign and `r`
/// another, the second that `a` and `m` differ in sign and `r` has the sign
/// of `m`.
proof fn lemma_sign_tests(a: u8, m: u8, r: u8)
    ensures
        (!(a ^ m) & (a ^ r) & 0x80 != 0) == ((a >= 0x80) == (m >= 0x80) && (a >= 0x80) != (r
            >= 0x80)),
        ((a ^ m) & (a ^ r) & 0x80 != 0) == ((a >= 0x80) != (m >= 0x80) && (a >= 0x80) != (r
            >= 0x80)),
{
    assert((!(a ^ m) & (a ^ r) & 0x80 != 0) == ((a >= 0x80) == (m >= 0x80) && (a >= 0x80) != (r
        >= 0x80)) && ((a ^ m) & (a ^ r) & 0x80 != 0) == ((a >= 0x80) != (m >= 0x80) && (a >= 0x80)
        != (r >= 0x80))) by (bit_vector);
}

/// `ADC` adds the operand and the carry to the accumulator modulo 256. C
/// tells that the unsigned sum does not fit in a byte, V that the signed
/// sum does not fit in a signed byte, Z that the result is zero, N that
/// its bit 7 is set.
pub proof fn lemma_add_meaning(s: CpuView, value: u8)
    ensures
        ({
            let sum = s.a + value + carry_of(s.p);
            let t = s.add_accumulator(value);
            &&& t.a == sum % 0x100
            &&& flag_is_set(t.p, CARRY) == (sum > 0xff)
            &&& flag_is_set(t.p, OVERFLOW) == !fits_signed(
                signed(s.a) + signed(value) + carry_of(s.p),
            )
            &&& flag_is_set(t.p, ZERO) == (t.a == 0)
            &&& flag_is_set(t.p, NEGATIVE) == (signed(t.a) < 0)
        }),
{
    reveal(CpuView::add_accumulator);
    let sum = s.a + value + carry_of(s.p);
    let result = wrap8(sum);
    let overflow = !(s.a ^ value) & (s.a ^ result) & 0x80 != 0;
    lemma_sign_tests(s.a, value, result);
    lemma_arithmetic_flags(s.p, sum > 0xff, overflow, result);
    lemma_result_flags(with_flag(with_flag(s.p, CARRY, sum > 0xff), OVERFLOW, overflow), result);
}

/// `SBC` subtracts the operand and the borrow, the inverse of the carry,
/// from the accumulator modulo 256. C tells that the subtraction did not
/// borrow, V that the signed difference does not fit in a signed byte, Z
/// that the result is zero, N that its bit 7 is set.
pub proof fn lemma_subtract_meaning(s: CpuView, value: u8)
    ensures
        ({
            let borrow = 1 - carry_of(s.p);
            let difference = s.a - value - borrow;
            let t = s.sub_accumulator(value);
            &&& t.a == difference % 0x100
            &&& flag_is_set(t.p, CARRY) == (difference >= 0)
            &&& flag_is_set(t.p, OVERFLOW) == !fits_signed(signed(s.a) - signed(value) - borrow)
            &&& flag_is_set(t.p, ZERO) == (t.a == 0)
            &&& flag_is_set(t.p, NEGATIVE) == (signed(t.a) < 0)
        }),
{
    reveal(CpuView::sub_accumulator);
    let difference = s.a - value - (1 - carry_of(s.p));
    let result = wrap8(difference);
    let overflow = (s.a ^ value) & (s.a ^ result) & 0x80 != 0;
    lemma_sign_tests(s.a, value, result);
    lemma_arithmetic_flags(s.p, difference >= 0, overflow, result);
    lemma_result_flags(
        with_flag(with_flag(s.p, CARRY, difference >= 0), OVERFLOW, overflow),
        result,
    );
}

/// A comparison changes no register. C tells that the register is not
/// below the operand, Z that the two are equal, N that bit 7 of their
/// difference modulo 256 is set.
pub proof fn lemma_compare_meaning(s: CpuView, value: u8, register: u8)
    ensures
        ({
            let t = s.compare(value, register);
            &&& t.a == s.a && t.x == s.x && t.y == s.y
            &&& flag_is_set(t.p, CARRY) == (register >= value)
            &&& flag_is_set(t.p, ZERO) == (register == value)
            &&& flag_is_set(t.p, NEGATIVE) == ((register - value) % 0x100 >= 0x80)
        }),
{
    reveal(CpuView::compare);
    let difference = wrap8(register - value);
    assert((difference & 0x80 != 0) == (difference >= 0x80)) by (bit_vector);
    lemma_three_flags(
        s.p,
        (CARRY, ZERO, NEGATIVE),
        (register >= value, register == value, difference & 0x80 != 0),
    );
}

} // verus!
