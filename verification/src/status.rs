//! The status register: eight independent condition bits held in one byte.
//!
//! The register is passed and returned by value. Every operation is a pure
//! function of its arguments and touches only the bits it names.

use crate::bits::lemma_sign_bit;
use vstd::prelude::*;

verus! {

/// One bit of the status register.
#[derive(Clone, Copy, Debug, PartialEq, Eq, Structural)]
pub enum Flag {
    Carry,
    Zero,
    InterruptDisable,
    Decimal,
    Break,
    Unused,
    Overflow,
    Negative,
}

impl Flag {
    /// The byte in which this flag's bit, and no other, is set.
    pub open spec fn spec_mask(self) -> u8 {
        match self {
            Flag::Carry => 0x01,
            Flag::Zero => 0x02,
            Flag::InterruptDisable => 0x04,
            Flag::Decimal => 0x08,
            Flag::Break => 0x10,
            Flag::Unused => 0x20,
            Flag::Overflow => 0x40,
            Flag::Negative => 0x80,
        }
    }

    /// The byte in which this flag's bit, and no other, is set.
    #[verifier::when_used_as_spec(spec_mask)]
    pub fn mask(self) -> (m: u8)
        ensures
            m == self.spec_mask(),
    {
        match self {
            Flag::Carry => 0x01,
            Flag::Zero => 0x02,
            Flag::InterruptDisable => 0x04,
            Flag::Decimal => 0x08,
            Flag::Break => 0x10,
            Flag::Unused => 0x20,
            Flag::Overflow => 0x40,
            Flag::Negative => 0x80,
        }
    }
}

/// Whether `flag` is set in `status`.
pub open spec fn is_set(status: u8, flag: Flag) -> bool {
    status & flag.mask() != 0
}

/// `status` with `flag` forced to `value`.
pub open spec fn with_flag(status: u8, flag: Flag, value: bool) -> u8 {
    if value {
        status | flag.mask()
    } else {
        status & !flag.mask()
    }
}

/// `status` after recording whether `value` is zero and whether it is
/// negative when read as a signed byte.
pub open spec fn with_zero_negative(status: u8, value: u8) -> u8 {
    with_flag(with_flag(status, Flag::Zero, value == 0), Flag::Negative, value >= 0x80)
}

/// A byte read as a two's-complement number.
pub open spec fn signed(value: u8) -> int {
    if value >= 0x80 {
        value - 0x100
    } else {
        value as int
    }
}

/// 1 for a set carry, 0 for a clear one.
pub open spec fn carry_value(carry: bool) -> int {
    if carry {
        1
    } else {
        0
    }
}

/// The unsigned sum `a + b + carry`, before it is cut to eight bits.
pub open spec fn add_total(a: u8, b: u8, carry_in: bool) -> int {
    a + b + carry_value(carry_in)
}

/// The signed sum of the same operands.
pub open spec fn add_signed_total(a: u8, b: u8, carry_in: bool) -> int {
    signed(a) + signed(b) + carry_value(carry_in)
}

/// The unsigned difference `a - b - borrow`, where the borrow is the
/// complement of the carry.
pub open spec fn sub_total(a: u8, b: u8, carry_in: bool) -> int {
    a - b - (1 - carry_value(carry_in))
}

/// The signed difference of the same operands.
pub open spec fn sub_signed_total(a: u8, b: u8, carry_in: bool) -> int {
    signed(a) - signed(b) - (1 - carry_value(carry_in))
}

/// Whether a signed total lies outside what a signed byte can hold.
pub open spec fn out_of_signed_range(total: int) -> bool {
    total < -128 || total > 127
}

proof fn lemma_masks(status: u8, m: u8, n: u8)
    by (bit_vector)
    requires
        m == 0x01 || m == 0x02 || m == 0x04 || m == 0x08 || m == 0x10 || m == 0x20 || m == 0x40
            || m == 0x80,
        n == 0x01 || n == 0x02 || n == 0x04 || n == 0x08 || n == 0x10 || n == 0x20 || n == 0x40
            || n == 0x80,
    ensures
        (status | m) & m != 0,
        (status & !m) & m == 0,
        m != n ==> (status | m) & n == status & n,
        m != n ==> (status & !m) & n == status & n,
{
}

proof fn lemma_bits_determine_byte(s: u8, t: u8)
    by (bit_vector)
    requires
        (s & 0x01 != 0) == (t & 0x01 != 0),
        (s & 0x02 != 0) == (t & 0x02 != 0),
        (s & 0x04 != 0) == (t & 0x04 != 0),
        (s & 0x08 != 0) == (t & 0x08 != 0),
        (s & 0x10 != 0) == (t & 0x10 != 0),
        (s & 0x20 != 0) == (t & 0x20 != 0),
        (s & 0x40 != 0) == (t & 0x40 != 0),
        (s & 0x80 != 0) == (t & 0x80 != 0),
    ensures
        s == t,
{
}

proof fn lemma_mask_divides(status: u8, m: u8)
    by (bit_vector)
    requires
        m == 0x01 || m == 0x02 || m == 0x04 || m == 0x08 || m == 0x10 || m == 0x20 || m == 0x40
            || m == 0x80,
    ensures
        (status & m != 0) <==> (status / m) % 2 == 1,
{
}

/// A flag is set exactly when the status byte, divided by the flag's mask,
/// is odd: the flags are the binary digits of the byte.
pub proof fn lemma_flag_is_binary_digit(status: u8, flag: Flag)
    ensures
        is_set(status, flag) <==> (status / flag.mask()) % 2 == 1,
{
    lemma_mask_divides(status, flag.mask());
}

/// Forcing one flag gives that flag the requested value and leaves every
/// other flag as it was.
pub proof fn lemma_with_flag(status: u8, flag: Flag, value: bool, other: Flag)
    ensures
        is_set(with_flag(status, flag, value), flag) == value,
        other != flag ==> is_set(with_flag(status, flag, value), other) == is_set(status, other),
{
    lemma_masks(status, flag.mask(), other.mask());
}

/// Two status bytes that agree on all eight flags are the same byte.
pub proof fn lemma_flags_determine_status(s: u8, t: u8)
    requires
        forall|flag: Flag| is_set(s, flag) == is_set(t, flag),
    ensures
        s == t,
{
    assert(is_set(s, Flag::Carry) == is_set(t, Flag::Carry));
    assert(is_set(s, Flag::Zero) == is_set(t, Flag::Zero));
    assert(is_set(s, Flag::InterruptDisable) == is_set(t, Flag::InterruptDisable));
    assert(is_set(s, Flag::Decimal) == is_set(t, Flag::Decimal));
    assert(is_set(s, Flag::Break) == is_set(t, Flag::Break));
    assert(is_set(s, Flag::Unused) == is_set(t, Flag::Unused));
    assert(is_set(s, Flag::Overflow) == is_set(t, Flag::Overflow));
    assert(is_set(s, Flag::Negative) == is_set(t, Flag::Negative));
    lemma_bits_determine_byte(s, t);
}

/// Recording zero and negative sets Zero exactly for a zero value, sets
/// Negative exactly for a value with bit 7 set, and leaves the other six
/// flags as they were.
pub proof fn lemma_with_zero_negative(status: u8, value: u8, other: Flag)
    ensures
        is_set(with_zero_negative(status, value), Flag::Zero) <==> value == 0,
        is_set(with_zero_negative(status, value), Flag::Negative) <==> value >= 0x80,
        other != Flag::Zero && other != Flag::Negative ==> is_set(
            with_zero_negative(status, value),
            other,
        ) == is_set(status, other),
{
    let zeroed = with_flag(status, Flag::Zero, value == 0);
    lemma_with_flag(status, Flag::Zero, value == 0, Flag::Zero);
    lemma_with_flag(status, Flag::Zero, value == 0, other);
    lemma_with_flag(zeroed, Flag::Negative, value >= 0x80, Flag::Negative);
    lemma_with_flag(zeroed, Flag::Negative, value >= 0x80, Flag::Zero);
    lemma_with_flag(zeroed, Flag::Negative, value >= 0x80, other);
}

/// Signed overflow of an addition happens exactly when both operands have
/// the same sign and the eight-bit result has the other one.
pub proof fn lemma_add_overflow_by_signs(a: u8, b: u8, carry_in: bool)
    ensures
        out_of_signed_range(add_signed_total(a, b, carry_in)) <==> {
            let result = add_total(a, b, carry_in) % 0x100;
            (a >= 0x80) == (b >= 0x80) && (result >= 0x80) != (a >= 0x80)
        },
{
}

/// Subtracting `b` with borrow is adding the complement of `b` with carry:
/// the unsigned totals differ by exactly 256 and the signed totals are
/// equal, so result byte, carry out and signed overflow agree.
pub proof fn lemma_sub_is_add_of_complement(a: u8, b: u8, carry_in: bool)
    ensures
        sub_total(a, b, carry_in) + 0x100 == add_total(a, (0xFF - b) as u8, carry_in),
        sub_signed_total(a, b, carry_in) == add_signed_total(a, (0xFF - b) as u8, carry_in),
{
}

/// Reads one flag.
pub fn test(status: u8, flag: Flag) -> (b: bool)
    ensures
        b == is_set(status, flag),
{
    status & flag.mask() != 0
}

/// Sets one flag and leaves the others as they are.
pub fn set(status: u8, flag: Flag) -> (r: u8)
    ensures
        r == with_flag(status, flag, true),
        is_set(r, flag),
        forall|other: Flag| other != flag ==> is_set(r, other) == is_set(status, other),
{
    proof {
        assert forall|other: Flag| other != flag implies is_set(
            with_flag(status, flag, true),
            other,
        ) == is_set(status, other) by {
            lemma_with_flag(status, flag, true, other);
        }
        lemma_with_flag(status, flag, true, flag);
    }
    status | flag.mask()
}

/// Clears one flag and leaves the others as they are.
pub fn clear(status: u8, flag: Flag) -> (r: u8)
    ensures
        r == with_flag(status, flag, false),
        !is_set(r, flag),
        forall|other: Flag| other != flag ==> is_set(r, other) == is_set(status, other),
{
    proof {
        assert forall|other: Flag| other != flag implies is_set(
            with_flag(status, flag, false),
            other,
        ) == is_set(status, other) by {
            lemma_with_flag(status, flag, false, other);
        }
        lemma_with_flag(status, flag, false, flag);
    }
    status & !flag.mask()
}

/// Sets or clears one flag according to `value`.
pub fn assign(status: u8, flag: Flag, value: bool) -> (r: u8)
    ensures
        r == with_flag(status, flag, value),
        is_set(r, flag) == value,
        forall|other: Flag| other != flag ==> is_set(r, other) == is_set(status, other),
{
    if value {
        set(status, flag)
    } else {
        clear(status, flag)
    }
}

/// Sets Zero exactly when `value` is zero and Negative exactly when bit 7 of
/// `value` is set; the other flags keep their values.
pub fn update_zero_negative(status: u8, value: u8) -> (r: u8)
    ensures
        r == with_zero_negative(status, value),
        is_set(r, Flag::Zero) <==> value == 0,
        is_set(r, Flag::Negative) <==> value >= 0x80,
        forall|other: Flag|
            other != Flag::Zero && other != Flag::Negative ==> is_set(r, other) == is_set(
                status,
                other,
            ),
{
    proof {
        lemma_sign_bit(value);
        assert forall|other: Flag| other != Flag::Zero && other != Flag::Negative implies is_set(
            with_zero_negative(status, value),
            other,
        ) == is_set(status, other) by {
            lemma_with_zero_negative(status, value, other);
        }
        lemma_with_zero_negative(status, value, Flag::Carry);
    }
    let zeroed = assign(status, Flag::Zero, value == 0);
    assign(zeroed, Flag::Negative, value & 0x80 != 0)
}

/// Adds two bytes and a carry as the arithmetic unit does.
///
/// Returns the eight-bit result, the carry out of bit 7, and whether the
/// addition overflowed when the operands are read as signed bytes.
pub fn update_carry_overflow_for_add(a: u8, b: u8, carry_in: bool) -> (r: (u8, bool, bool))
    ensures
        r.0 == add_total(a, b, carry_in) % 0x100,
        r.1 <==> add_total(a, b, carry_in) > 0xFF,
        r.2 <==> out_of_signed_range(add_signed_total(a, b, carry_in)),
{
    let carry: u16 = if carry_in {
        1
    } else {
        0
    };
    let total: u16 = a as u16 + b as u16 + carry;
    let result: u8 = (total % 0x100) as u8;
    let same_sign = (a >= 0x80) == (b >= 0x80);
    let overflow = same_sign && (result >= 0x80) != (a >= 0x80);
    proof {
        lemma_add_overflow_by_signs(a, b, carry_in);
    }
    (result, total > 0xFF, overflow)
}

/// Subtracts a byte and a borrow as the arithmetic unit does; the borrow is
/// the complement of the carry.
///
/// Returns the eight-bit result, the carry out (set when no borrow was
/// needed), and whether the subtraction overflowed when the operands are
/// read as signed bytes.
pub fn update_carry_overflow_for_sub(a: u8, b: u8, carry_in: bool) -> (r: (u8, bool, bool))
    ensures
        r.0 == sub_total(a, b, carry_in) % 0x100,
        r.1 <==> sub_total(a, b, carry_in) >= 0,
        r.2 <==> out_of_signed_range(sub_signed_total(a, b, carry_in)),
{
    proof {
        lemma_sub_is_add_of_complement(a, b, carry_in);
    }
    update_carry_overflow_for_add(a, 0xFF - b, carry_in)
}

} // verus!
