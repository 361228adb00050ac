//! What the arithmetic operations yield, stated over mathematical integers.
//!
//! Arithmetic wraps around (modulo 2^8 or 2^16) and reports what was lost in
//! the flags. Each operation is given by two spec functions, one for the
//! truncated result and one for the flags it leaves behind.

use vstd::prelude::*;
use super::flags_register::FlagsRegister;

verus! {

/// A carry bit as a number.
pub open spec fn bit(carry: bool) -> int {
    if carry {
        1
    } else {
        0
    }
}

/// The result of an 8-bit addition with carry-in: the sum modulo 256.
pub open spec fn add8_value(accumulator: u8, operand: u8, carry_in: bool) -> u8 {
    ((accumulator + operand + bit(carry_in)) % 256) as u8
}

/// The flags after an 8-bit addition with carry-in.
pub open spec fn add8_flags(accumulator: u8, operand: u8, carry_in: bool) -> FlagsRegister {
    FlagsRegister {
        zero: (accumulator + operand + bit(carry_in)) % 256 == 0,
        subtract: false,
        half_carry: accumulator % 16 + operand % 16 + bit(carry_in) > 0xF,
        carry: accumulator + operand + bit(carry_in) > 0xFF,
    }
}

/// The result of a 16-bit addition: the sum modulo 65536.
pub open spec fn add16_value(hl: u16, operand: u16) -> u16 {
    ((hl + operand) % 0x1_0000) as u16
}

/// The flags after a 16-bit addition. The half-carry looks at the low bytes
/// and is set when their sum exceeds 0xF.
pub open spec fn add16_flags(hl: u16, operand: u16) -> FlagsRegister {
    FlagsRegister {
        zero: (hl + operand) % 0x1_0000 == 0,
        subtract: false,
        half_carry: hl % 256 + operand % 256 > 0xF,
        carry: hl + operand > 0xFFFF,
    }
}

/// The result of an 8-bit subtraction: the difference modulo 256.
pub open spec fn sub8_value(accumulator: u8, operand: u8) -> u8 {
    ((accumulator - operand) % 256) as u8
}

/// The flags after an 8-bit subtraction. The carry flag reports a borrow;
/// the half-carry flag is not computed and keeps the value it had.
pub open spec fn sub8_flags(flags: FlagsRegister, accumulator: u8, operand: u8) -> FlagsRegister {
    FlagsRegister {
        zero: (accumulator - operand) % 256 == 0,
        subtract: true,
        half_carry: flags.half_carry,
        carry: operand > accumulator,
    }
}

/// The result and the carry flag of an 8-bit addition make up the full sum:
/// the result is the sum modulo 256, and the carry flag is set exactly when
/// the sum exceeds 255. This holds for either value of the carry-in.
pub proof fn lemma_add8_sum(accumulator: u8, operand: u8, carry_in: bool)
    ensures
        add8_value(accumulator, operand, carry_in) == (accumulator + operand + bit(carry_in))
            % 256,
        add8_flags(accumulator, operand, carry_in).carry <==> accumulator + operand + bit(
            carry_in,
        ) > 255,
        accumulator + operand + bit(carry_in) == add8_value(accumulator, operand, carry_in) + 256
            * bit(add8_flags(accumulator, operand, carry_in).carry),
{
}

/// The half-carry flag of an 8-bit addition is set exactly when the low
/// nibbles of the operands and the carry-in add up to more than 0xF.
pub proof fn lemma_add8_half_carry(accumulator: u8, operand: u8, carry_in: bool)
    ensures
        add8_flags(accumulator, operand, carry_in).half_carry <==> (accumulator & 0xF) + (operand
            & 0xF) + bit(carry_in) > 0xF,
{
    assert(accumulator & 0xF == accumulator % 16) by (bit_vector);
    assert(operand & 0xF == operand % 16) by (bit_vector);
}

/// Half-carry and carry of an 8-bit addition do not determine each other:
/// each of the four combinations occurs.
pub proof fn lemma_add8_half_carry_independent_of_carry()
    ensures
        exists|a: u8, b: u8, c: bool|
            (#[trigger] add8_flags(a, b, c)).half_carry && add8_flags(a, b, c).carry,
        exists|a: u8, b: u8, c: bool|
            (#[trigger] add8_flags(a, b, c)).half_carry && !add8_flags(a, b, c).carry,
        exists|a: u8, b: u8, c: bool|
            !(#[trigger] add8_flags(a, b, c)).half_carry && add8_flags(a, b, c).carry,
        exists|a: u8, b: u8, c: bool|
            !(#[trigger] add8_flags(a, b, c)).half_carry && !add8_flags(a, b, c).carry,
{
    assert(add8_flags(0xFF, 0x01, false).half_carry && add8_flags(0xFF, 0x01, false).carry);
    assert(add8_flags(0x0F, 0x01, false).half_carry && !add8_flags(0x0F, 0x01, false).carry);
    assert(!add8_flags(0xF0, 0x10, false).half_carry && add8_flags(0xF0, 0x10, false).carry);
    assert(!add8_flags(0x01, 0x01, false).half_carry && !add8_flags(0x01, 0x01, false).carry);
}

/// The result and the carry flag of a 16-bit addition make up the full sum.
pub proof fn lemma_add16_sum(hl: u16, operand: u16)
    ensures
        add16_value(hl, operand) == (hl + operand) % 0x1_0000,
        add16_flags(hl, operand).carry <==> hl + operand > 0xFFFF,
        hl + operand == add16_value(hl, operand) + 0x1_0000 * bit(
            add16_flags(hl, operand).carry,
        ),
{
}

/// The half-carry flag of a 16-bit addition is set exactly when the low
/// bytes of the operands add up to more than 0xF.
pub proof fn lemma_add16_half_carry(hl: u16, operand: u16)
    ensures
        add16_flags(hl, operand).half_carry <==> (hl & 0xFF) + (operand & 0xFF) > 0xF,
{
    assert(hl & 0xFF == hl % 256) by (bit_vector);
    assert(operand & 0xFF == operand % 256) by (bit_vector);
}

/// The result and the carry flag of an 8-bit subtraction make up the full
/// difference: the carry flag is set exactly when the operand is larger than
/// the accumulator, and the result is then 256 above the difference.
pub proof fn lemma_sub8_difference(flags: FlagsRegister, accumulator: u8, operand: u8)
    ensures
        sub8_value(accumulator, operand) == (accumulator - operand) % 256,
        sub8_flags(flags, accumulator, operand).carry <==> operand > accumulator,
        accumulator - operand == sub8_value(accumulator, operand) - 256 * bit(
            sub8_flags(flags, accumulator, operand).carry,
        ),
{
}

/// After every operation the zero flag is set exactly when the truncated
/// result is zero.
pub proof fn lemma_zero_flag_follows_result(
    flags: FlagsRegister,
    accumulator: u8,
    operand: u8,
    carry_in: bool,
    hl: u16,
    operand16: u16,
)
    ensures
        add8_flags(accumulator, operand, carry_in).zero <==> add8_value(
            accumulator,
            operand,
            carry_in,
        ) == 0,
        add16_flags(hl, operand16).zero <==> add16_value(hl, operand16) == 0,
        sub8_flags(flags, accumulator, operand).zero <==> sub8_value(accumulator, operand) == 0,
        sub8_flags(flags, accumulator, operand).zero <==> accumulator == operand,
{
}

/// Additions clear the subtract flag and subtraction sets it, whatever the
/// operands are.
pub proof fn lemma_subtract_flag(
    flags: FlagsRegister,
    accumulator: u8,
    operand: u8,
    carry_in: bool,
    hl: u16,
    operand16: u16,
)
    ensures
        !add8_flags(accumulator, operand, carry_in).subtract,
        !add16_flags(hl, operand16).subtract,
        sub8_flags(flags, accumulator, operand).subtract,
{
}

} // verus!
