//! The condition flags and their packed, one-byte form.

use vstd::prelude::*;

verus! {

/// Weight of the zero flag in the packed byte (bit 7).
pub const ZERO_FLAG_MASK: u8 = 0x80;

/// Weight of the subtract flag in the packed byte (bit 6).
pub const SUBTRACT_FLAG_MASK: u8 = 0x40;

/// Weight of the half-carry flag in the packed byte (bit 5).
pub const HALF_CARRY_FLAG_MASK: u8 = 0x20;

/// Weight of the carry flag in the packed byte (bit 4).
pub const CARRY_FLAG_MASK: u8 = 0x10;

/// The four condition flags that arithmetic leaves behind.
#[derive(Clone, Copy, Debug, PartialEq, Eq, Structural)]
pub struct FlagsRegister {
    /// The last result was zero.
    pub zero: bool,
    /// The last operation was a subtraction.
    pub subtract: bool,
    /// The last operation carried out of the low nibble.
    pub half_carry: bool,
    /// The last operation carried (or borrowed) out of the full width.
    pub carry: bool,
}

/// Whether the bit of weight `mask` (a power of two) is set in `byte`.
pub open spec fn bit_is_set(byte: u8, mask: u8) -> bool {
    (byte / mask) % 2 == 1
}

impl FlagsRegister {
    /// The register with every flag cleared.
    pub open spec fn cleared() -> FlagsRegister {
        FlagsRegister { zero: false, subtract: false, half_carry: false, carry: false }
    }

    /// The packed byte: each set flag contributes its weight, and the low
    /// nibble is always zero.
    pub open spec fn as_byte(self) -> u8 {
        ((if self.zero { 0x80int } else { 0 })
            + (if self.subtract { 0x40int } else { 0 })
            + (if self.half_carry { 0x20int } else { 0 })
            + (if self.carry { 0x10int } else { 0 })) as u8
    }

    /// The flags that a byte stands for: bits 7 to 4, the low nibble ignored.
    pub open spec fn of_byte(byte: u8) -> FlagsRegister {
        FlagsRegister {
            zero: bit_is_set(byte, ZERO_FLAG_MASK),
            subtract: bit_is_set(byte, SUBTRACT_FLAG_MASK),
            half_carry: bit_is_set(byte, HALF_CARRY_FLAG_MASK),
            carry: bit_is_set(byte, CARRY_FLAG_MASK),
        }
    }

    /// Creates the register with every flag cleared.
    pub fn new() -> (flags: FlagsRegister)
        ensures
            flags == FlagsRegister::cleared(),
    {
        FlagsRegister { zero: false, subtract: false, half_carry: false, carry: false }
    }

    /// Packs the flags into one byte: bit 7 is zero, bit 6 subtract, bit 5
    /// half-carry, bit 4 carry, and the low nibble reads as zero.
    pub fn pack(self) -> (byte: u8)
        ensures
            byte == self.as_byte(),
            byte % 16 == 0,
            FlagsRegister::of_byte(byte) == self,
    {
        let zero: u8 = if self.zero { ZERO_FLAG_MASK } else { 0 };
        let subtract: u8 = if self.subtract { SUBTRACT_FLAG_MASK } else { 0 };
        let half_carry: u8 = if self.half_carry { HALF_CARRY_FLAG_MASK } else { 0 };
        let carry: u8 = if self.carry { CARRY_FLAG_MASK } else { 0 };
        proof {
            assert(zero | subtract | half_carry | carry == zero + subtract + half_carry + carry)
                by (bit_vector)
                requires
                    zero == 0x80 || zero == 0,
                    subtract == 0x40 || subtract == 0,
                    half_carry == 0x20 || half_carry == 0,
                    carry == 0x10 || carry == 0,
            ;
            lemma_pack_then_unpack(self);
        }
        zero | subtract | half_carry | carry
    }

    /// Reads the flags out of a packed byte. The low nibble is ignored.
    pub fn unpack(byte: u8) -> (flags: FlagsRegister)
        ensures
            flags == FlagsRegister::of_byte(byte),
            flags.as_byte() == byte - byte % 16,
    {
        proof {
            lemma_masks_test_bits(byte);
            lemma_unpack_then_pack(byte);
        }
        FlagsRegister {
            zero: (byte & ZERO_FLAG_MASK) != 0,
            subtract: (byte & SUBTRACT_FLAG_MASK) != 0,
            half_carry: (byte & HALF_CARRY_FLAG_MASK) != 0,
            carry: (byte & CARRY_FLAG_MASK) != 0,
        }
    }
}

/// Masking a byte with a flag's weight tests the same bit as `bit_is_set`.
pub proof fn lemma_masks_test_bits(byte: u8)
    ensures
        (byte & ZERO_FLAG_MASK != 0) == bit_is_set(byte, ZERO_FLAG_MASK),
        (byte & SUBTRACT_FLAG_MASK != 0) == bit_is_set(byte, SUBTRACT_FLAG_MASK),
        (byte & HALF_CARRY_FLAG_MASK != 0) == bit_is_set(byte, HALF_CARRY_FLAG_MASK),
        (byte & CARRY_FLAG_MASK != 0) == bit_is_set(byte, CARRY_FLAG_MASK),
{
    assert((byte & 0x80 != 0) == ((byte / 0x80) % 2 == 1)) by (bit_vector);
    assert((byte & 0x40 != 0) == ((byte / 0x40) % 2 == 1)) by (bit_vector);
    assert((byte & 0x20 != 0) == ((byte / 0x20) % 2 == 1)) by (bit_vector);
    assert((byte & 0x10 != 0) == ((byte / 0x10) % 2 == 1)) by (bit_vector);
}

/// Packing and then unpacking gives back the same flags, whatever the four
/// flags are, and the packed byte never has a bit of its low nibble set.
pub proof fn lemma_pack_then_unpack(flags: FlagsRegister)
    ensures
        FlagsRegister::of_byte(flags.as_byte()) == flags,
        flags.as_byte() % 16 == 0,
{
}

/// Unpacking and then packing keeps the high nibble of a byte and clears its
/// low nibble.
pub proof fn lemma_unpack_then_pack(byte: u8)
    ensures
        FlagsRegister::of_byte(byte).as_byte() == byte - byte % 16,
        FlagsRegister::of_byte(byte).as_byte() == byte & 0xF0,
{
    assert(byte & 0xF0 == byte - byte % 16) by (bit_vector);
}

} // verus!
