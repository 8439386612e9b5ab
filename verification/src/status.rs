//! The processor status byte `P` and its seven flags.

use vstd::prelude::*;

verus! {

/// Carry, bit 0.
pub const CARRY: u8 = 0x01;

/// Zero, bit 1.
pub const ZERO: u8 = 0x02;

/// Interrupt disable, bit 2.
pub const INT_DISABLE: u8 = 0x04;

/// Decimal mode, bit 3. It can be set and cleared but arithmetic ignores it.
pub const DECIMAL: u8 = 0x08;

/// Break, bit 4.
pub const BREAK: u8 = 0x10;

/// Bit 5 has no flag behind it and always reads as one.
pub const ALWAYS_SET: u8 = 0x20;

/// Overflow, bit 6.
pub const OVERFLOW: u8 = 0x40;

/// Negative, bit 7.
pub const NEGATIVE: u8 = 0x80;

/// Whether any bit of `mask` is set in the status byte `p`.
pub open spec fn flag_is_set(p: u8, mask: u8) -> bool {
    p & mask != 0
}

/// The status byte `p` with the bits of `mask` switched on or off.
pub open spec fn with_flag(p: u8, mask: u8, on: bool) -> u8 {
    if on {
        p | mask
    } else {
        p & !mask
    }
}

/// Whether `mask` is the mask of one of the seven flags.
pub open spec fn is_flag(mask: u8) -> bool {
    mask == CARRY || mask == ZERO || mask == INT_DISABLE || mask == DECIMAL || mask == BREAK
        || mask == OVERFLOW || mask == NEGATIVE
}

/// The status byte `p` with Z and N describing the result byte `value`.
pub open spec fn with_zero_negative(p: u8, value: u8) -> u8 {
    with_flag(with_flag(p, ZERO, value == 0), NEGATIVE, value & 0x80 != 0)
}

/// What a byte pulled from the stack becomes when it is loaded into `P`:
/// bit 5 is forced on and the break bit is cleared.
pub open spec fn restored_status(pulled: u8) -> u8 {
    (pulled | ALWAYS_SET) & !BREAK
}

/// The status register. Its view is the byte `P`.
pub struct CpuStatus {
    byte: u8,
}

impl View for CpuStatus {
    type V = u8;

    closed spec fn view(&self) -> u8 {
        self.byte
    }
}

impl CpuStatus {
    /// Bit 5 is set in every status register that exists.
    #[verifier::type_invariant]
    spec fn bit_five_set(self) -> bool {
        self.byte & ALWAYS_SET == ALWAYS_SET
    }

    /// The status at power-up: every flag clear.
    pub fn new() -> (status: Self)
        ensures
            status@ == ALWAYS_SET,
    {
        assert(0x20u8 & 0x20u8 == 0x20u8) by (bit_vector);
        Self { byte: 0x20 }
    }

    /// The status that a byte pulled from the stack restores.
    pub fn restore(pulled: u8) -> (status: Self)
        ensures
            status@ == restored_status(pulled),
    {
        assert(((pulled | 0x20u8) & !0x10u8) & 0x20u8 == 0x20u8) by (bit_vector);
        Self { byte: (pulled | ALWAYS_SET) & !BREAK }
    }

    /// The byte `P` as the program observes it. Bit 5 is set in every
    /// status byte that leaves the register.
    pub fn bits(&self) -> (p: u8)
        ensures
            p == self@,
            flag_is_set(p, ALWAYS_SET),
    {
        proof {
            use_type_invariant(self);
            let b = self.byte;
            assert(b & 0x20u8 == 0x20u8 ==> b & 0x20u8 != 0) by (bit_vector);
        }
        self.byte
    }

    /// Whether the carry flag is set.
    pub fn get_carry(&self) -> (on: bool)
        ensures
            on == flag_is_set(self@, CARRY),
    {
        self.byte & CARRY != 0
    }

    /// Whether the zero flag is set.
    pub fn get_zero(&self) -> (on: bool)
        ensures
            on == flag_is_set(self@, ZERO),
    {
        self.byte & ZERO != 0
    }

    /// Whether interrupt requests are masked.
    pub fn get_int_disable(&self) -> (on: bool)
        ensures
            on == flag_is_set(self@, INT_DISABLE),
    {
        self.byte & INT_DISABLE != 0
    }

    /// Whether the decimal flag is set.
    pub fn get_decimal(&self) -> (on: bool)
        ensures
            on == flag_is_set(self@, DECIMAL),
    {
        self.byte & DECIMAL != 0
    }

    /// Whether the break flag is set.
    pub fn get_break(&self) -> (on: bool)
        ensures
            on == flag_is_set(self@, BREAK),
    {
        self.byte & BREAK != 0
    }

    /// Whether the overflow flag is set.
    pub fn get_overflow(&self) -> (on: bool)
        ensures
            on == flag_is_set(self@, OVERFLOW),
    {
        self.byte & OVERFLOW != 0
    }

    /// Whether the negative flag is set.
    pub fn get_negative(&self) -> (on: bool)
        ensures
            on == flag_is_set(self@, NEGATIVE),
    {
        self.byte & NEGATIVE != 0
    }

    /// The one primitive behind the seven setters: switch the flag `mask`
    /// on or off and leave the rest of the byte alone.
    fn set_bit(&mut self, value: bool, mask: u8)
        requires
            is_flag(mask),
        ensures
            final(self)@ == with_flag(old(self)@, mask, value),
    {
        proof {
            use_type_invariant(&*self);
            let b = self.byte;
            assert(b & 0x20u8 == 0x20u8 && (mask == 0x01u8 || mask == 0x02u8 || mask == 0x04u8
                || mask == 0x08u8 || mask == 0x10u8 || mask == 0x40u8 || mask == 0x80u8) ==> (b
                | mask) & 0x20u8 == 0x20u8 && (b & !mask) & 0x20u8 == 0x20u8) by (bit_vector);
        }
        if value {
            self.byte = self.byte | mask;
        } else {
            self.byte = self.byte & !mask;
        }
    }

    /// Set or clear the carry flag.
    pub fn set_carry(&mut self, value: bool)
        ensures
            final(self)@ == with_flag(old(self)@, CARRY, value),
    {
        self.set_bit(value, CARRY);
    }

    /// Set or clear the zero flag.
    pub fn set_zero(&mut self, value: bool)
        ensures
            final(self)@ == with_flag(old(self)@, ZERO, value),
    {
        self.set_bit(value, ZERO);
    }

    /// Set or clear the interrupt-disable flag.
    pub fn set_int_disable(&mut self, value: bool)
        ensures
            final(self)@ == with_flag(old(self)@, INT_DISABLE, value),
    {
        self.set_bit(value, INT_DISABLE);
    }

    /// Set or clear the decimal flag.
    pub fn set_decimal(&mut self, value: bool)
        ensures
            final(self)@ == with_flag(old(self)@, DECIMAL, value),
    {
        self.set_bit(value, DECIMAL);
    }

    /// Set or clear the break flag.
    pub fn set_break(&mut self, value: bool)
        ensures
            final(self)@ == with_flag(old(self)@, BREAK, value),
    {
        self.set_bit(value, BREAK);
    }

    /// Set or clear the overflow flag.
    pub fn set_overflow(&mut self, value: bool)
        ensures
            final(self)@ == with_flag(old(self)@, OVERFLOW, value),
    {
        self.set_bit(value, OVERFLOW);
    }

    /// Set or clear the negative flag.
    pub fn set_negative(&mut self, value: bool)
        ensures
            final(self)@ == with_flag(old(self)@, NEGATIVE, value),
    {
        self.set_bit(value, NEGATIVE);
    }

    /// Set Z and N from a result byte, as most instructions do.
    pub fn set_zero_negative(&mut self, value: u8)
        ensures
            final(self)@ == with_zero_negative(old(self)@, value),
    {
        self.set_bit(value == 0, ZERO);
        self.set_bit(value & 0x80 != 0, NEGATIVE);
    }
}

/// Setting a flag makes it read as set, clearing it makes it read as clear,
/// and either way every other bit of the byte keeps its value.
pub proof fn lemma_with_flag(p: u8, mask: u8, on: bool)
    requires
        is_flag(mask),
    ensures
        flag_is_set(with_flag(p, mask, on), mask) == on,
        with_flag(p, mask, on) & !mask == p & !mask,
        flag_is_set(p, ALWAYS_SET) ==> flag_is_set(with_flag(p, mask, on), ALWAYS_SET),
{
    assert((mask == 0x01u8 || mask == 0x02u8 || mask == 0x04u8 || mask == 0x08u8 || mask == 0x10u8
        || mask == 0x40u8 || mask == 0x80u8) ==> (p | mask) & mask != 0 && (p & !mask) & mask == 0
        && (p | mask) & !mask == p & !mask && (p & !mask) & !mask == p & !mask && (p & 0x20u8 != 0
        ==> (p | mask) & 0x20u8 != 0 && (p & !mask) & 0x20u8 != 0)) by (bit_vector);
}

/// A status byte restored from the stack has bit 5 set and the break flag
/// clear, and agrees with the pulled byte on the other six flags.
pub proof fn lemma_restored_status(pulled: u8)
    ensures
        flag_is_set(restored_status(pulled), ALWAYS_SET),
        !flag_is_set(restored_status(pulled), BREAK),
        restored_status(pulled) & !(ALWAYS_SET | BREAK) == pulled & !(ALWAYS_SET | BREAK),
{
    assert(((pulled | 0x20u8) & !0x10u8) & 0x20u8 != 0 && ((pulled | 0x20u8) & !0x10u8) & 0x10u8
        == 0 && ((pulled | 0x20u8) & !0x10u8) & !(0x20u8 | 0x10u8) == pulled & !(0x20u8 | 0x10u8))
        by (bit_vector);
}

/// Whether status byte `q` agrees with `p` on every bit outside `mask`.
pub open spec fn changes_only(p: u8, q: u8, mask: u8) -> bool {
    q & !mask == p & !mask
}

/// Setting Z and N from a result touches no other bit.
pub proof fn lemma_result_flags(p: u8, value: u8)
    by (bit_vector)
    ensures
        with_zero_negative(p, value) & !(ZERO | NEGATIVE) == p & !(ZERO | NEGATIVE),
        p & ALWAYS_SET != 0 ==> with_zero_negative(p, value) & ALWAYS_SET != 0,
        (with_zero_negative(p, value) & ZERO != 0) == (value == 0),
        (with_zero_negative(p, value) & NEGATIVE != 0) == (value >= 0x80),
{
}

/// Setting C, and Z and N from a result, touches no other bit.
pub proof fn lemma_carry_result_flags(p: u8, carry: bool, value: u8)
    by (bit_vector)
    ensures
        with_zero_negative(with_flag(p, CARRY, carry), value) & !(CARRY | ZERO | NEGATIVE) == p & !(
        CARRY | ZERO | NEGATIVE),
        p & ALWAYS_SET != 0 ==> with_zero_negative(with_flag(p, CARRY, carry), value) & ALWAYS_SET
            != 0,
        (with_zero_negative(with_flag(p, CARRY, carry), value) & CARRY != 0) == carry,
{
}

/// Setting C and V, and Z and N from a result, touches no other bit.
pub proof fn lemma_arithmetic_flags(p: u8, carry: bool, overflow: bool, value: u8)
    by (bit_vector)
    ensures
        with_zero_negative(with_flag(with_flag(p, CARRY, carry), OVERFLOW, overflow), value) & !(
        CARRY | ZERO | OVERFLOW | NEGATIVE) == p & !(CARRY | ZERO | OVERFLOW | NEGATIVE),
        p & ALWAYS_SET != 0 ==> with_zero_negative(
            with_flag(with_flag(p, CARRY, carry), OVERFLOW, overflow),
            value,
        ) & ALWAYS_SET != 0,
        (with_zero_negative(with_flag(with_flag(p, CARRY, carry), OVERFLOW, overflow), value)
            & CARRY != 0) == carry,
        (with_zero_negative(with_flag(with_flag(p, CARRY, carry), OVERFLOW, overflow), value)
            & OVERFLOW != 0) == overflow,
{
}

/// The status byte `p` with three flags set or cleared one after the other.
pub open spec fn with_three_flags(p: u8, masks: (u8, u8, u8), on: (bool, bool, bool)) -> u8 {
    with_flag(with_flag(with_flag(p, masks.0, on.0), masks.1, on.1), masks.2, on.2)
}

/// Setting C, Z and N, or Z, V and N, one after the other sets each of them
/// as asked and touches no other bit.
pub proof fn lemma_three_flags(p: u8, masks: (u8, u8, u8), on: (bool, bool, bool))
    requires
        masks == (CARRY, ZERO, NEGATIVE) || masks == (ZERO, OVERFLOW, NEGATIVE),
    ensures
        with_three_flags(p, masks, on) & !(masks.0 | masks.1 | masks.2) == p & !(masks.0 | masks.1
            | masks.2),
        p & ALWAYS_SET != 0 ==> with_three_flags(p, masks, on) & ALWAYS_SET != 0,
        (with_three_flags(p, masks, on) & masks.0 != 0) == on.0,
        (with_three_flags(p, masks, on) & masks.1 != 0) == on.1,
        (with_three_flags(p, masks, on) & masks.2 != 0) == on.2,
{
    let (first, second, third) = masks;
    let (on_first, on_second, on_third) = on;
    let q = with_three_flags(p, masks, on);
    assert(q & !(first | second | third) == p & !(first | second | third) && (p & ALWAYS_SET != 0
        ==> q & ALWAYS_SET != 0) && (q & first != 0) == on_first && (q & second != 0) == on_second
        && (q & third != 0) == on_third) by (bit_vector)
        requires
            q == with_flag(
                with_flag(with_flag(p, first, on_first), second, on_second),
                third,
                on_third,
            ),
            (first == CARRY && second == ZERO && third == NEGATIVE) || (first == ZERO && second
                == OVERFLOW && third == NEGATIVE),
    ;
}

/// Setting B and then I touches no other bit.
pub proof fn lemma_break_flags(p: u8)
    by (bit_vector)
    ensures
        with_flag(with_flag(p, BREAK, true), INT_DISABLE, true) & !(BREAK | INT_DISABLE) == p & !(
        BREAK | INT_DISABLE),
        p & ALWAYS_SET != 0 ==> with_flag(with_flag(p, BREAK, true), INT_DISABLE, true)
            & ALWAYS_SET != 0,
{
}

/// Nothing lies outside the mask that covers the whole byte.
pub proof fn lemma_whole_byte(p: u8, q: u8)
    by (bit_vector)
    ensures
        q & !0xffu8 == p & !0xffu8,
        q & !0x00u8 == q,
{
}

} // verus!
