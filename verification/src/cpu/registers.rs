//! The register file: seven 8-bit registers, the flags, and the 16-bit pairs
//! that are read and written through them.

use vstd::prelude::*;
use super::flags_register::{lemma_pack_then_unpack, lemma_unpack_then_pack, FlagsRegister};
use super::instruction::ArthimeticTarget;

verus! {

/// The 16-bit value that a high and a low byte make together.
pub open spec fn pair_value(high: u8, low: u8) -> u16 {
    (high * 256 + low) as u16
}

/// Bits 8 to 15 of a 16-bit value.
pub open spec fn high_byte(value: u16) -> u8 {
    (value / 256) as u8
}

/// Bits 0 to 7 of a 16-bit value.
pub open spec fn low_byte(value: u16) -> u8 {
    (value % 256) as u8
}

/// The register file. Every combination of field values is a valid state.
#[derive(Clone, Copy, Debug, PartialEq, Eq, Structural)]
pub struct Registers {
    /// The accumulator.
    pub a: u8,
    pub b: u8,
    pub c: u8,
    pub d: u8,
    pub e: u8,
    /// The condition flags.
    pub f: FlagsRegister,
    pub h: u8,
    pub l: u8,
}

impl Registers {
    /// The register file with every register zero and every flag cleared.
    pub open spec fn zeroed() -> Registers {
        Registers { a: 0, b: 0, c: 0, d: 0, e: 0, f: FlagsRegister::cleared(), h: 0, l: 0 }
    }

    /// The value of the 8-bit register that `target` names.
    pub open spec fn value_of(self, target: ArthimeticTarget) -> u8 {
        match target {
            ArthimeticTarget::A => self.a,
            ArthimeticTarget::B => self.b,
            ArthimeticTarget::C => self.c,
            ArthimeticTarget::D => self.d,
            ArthimeticTarget::E => self.e,
            ArthimeticTarget::H => self.h,
            ArthimeticTarget::L => self.l,
        }
    }

    /// The pair AF: the accumulator above the packed flags.
    pub open spec fn af(self) -> u16 {
        pair_value(self.a, self.f.as_byte())
    }

    /// The pair BC: B is the high byte, C the low byte.
    pub open spec fn bc(self) -> u16 {
        pair_value(self.b, self.c)
    }

    /// The pair DE: D is the high byte, E the low byte.
    pub open spec fn de(self) -> u16 {
        pair_value(self.d, self.e)
    }

    /// The pair HL: H is the high byte, L the low byte.
    pub open spec fn hl(self) -> u16 {
        pair_value(self.h, self.l)
    }

    /// The register file after AF is written: the accumulator takes the high
    /// byte, the flags are unpacked from the low byte.
    pub open spec fn with_af(self, value: u16) -> Registers {
        Registers { a: high_byte(value), f: FlagsRegister::of_byte(low_byte(value)), ..self }
    }

    /// The register file after BC is written.
    pub open spec fn with_bc(self, value: u16) -> Registers {
        Registers { b: high_byte(value), c: low_byte(value), ..self }
    }

    /// The register file after DE is written.
    pub open spec fn with_de(self, value: u16) -> Registers {
        Registers { d: high_byte(value), e: low_byte(value), ..self }
    }

    /// The register file after HL is written.
    pub open spec fn with_hl(self, value: u16) -> Registers {
        Registers { h: high_byte(value), l: low_byte(value), ..self }
    }

    /// Creates the register file with every register zero and every flag
    /// cleared.
    pub fn new() -> (registers: Registers)
        ensures
            registers == Registers::zeroed(),
    {
        Registers { a: 0, b: 0, c: 0, d: 0, e: 0, f: FlagsRegister::new(), h: 0, l: 0 }
    }

    /// Reads the 8-bit register that `target` names.
    pub fn read(&self, target: ArthimeticTarget) -> (value: u8)
        ensures
            value == self.value_of(target),
    {
        match target {
            ArthimeticTarget::A => self.a,
            ArthimeticTarget::B => self.b,
            ArthimeticTarget::C => self.c,
            ArthimeticTarget::D => self.d,
            ArthimeticTarget::E => self.e,
            ArthimeticTarget::H => self.h,
            ArthimeticTarget::L => self.l,
        }
    }

    /// Reads the pair BC.
    pub fn get_bc(&self) -> (value: u16)
        ensures
            value == self.bc(),
            value == self.b * 256 + self.c,
    {
        join(self.b, self.c)
    }

    /// Writes the pair BC: both halves change together, nothing else does.
    pub fn set_bc(&mut self, value: u16)
        ensures
            *final(self) == old(self).with_bc(value),
            final(self).bc() == value,
    {
        proof {
            lemma_split_then_join(value);
        }
        self.b = upper(value);
        self.c = lower(value);
    }

    /// Reads the pair DE.
    pub fn get_de(&self) -> (value: u16)
        ensures
            value == self.de(),
            value == self.d * 256 + self.e,
    {
        join(self.d, self.e)
    }

    /// Writes the pair DE: both halves change together, nothing else does.
    pub fn set_de(&mut self, value: u16)
        ensures
            *final(self) == old(self).with_de(value),
            final(self).de() == value,
    {
        proof {
            lemma_split_then_join(value);
        }
        self.d = upper(value);
        self.e = lower(value);
    }

    /// Reads the pair HL.
    pub fn get_hl(&self) -> (value: u16)
        ensures
            value == self.hl(),
            value == self.h * 256 + self.l,
    {
        join(self.h, self.l)
    }

    /// Writes the pair HL: both halves change together, nothing else does.
    pub fn set_hl(&mut self, value: u16)
        ensures
            *final(self) == old(self).with_hl(value),
            final(self).hl() == value,
    {
        proof {
            lemma_split_then_join(value);
        }
        self.h = upper(value);
        self.l = lower(value);
    }

    /// Reads the pair AF: the accumulator above the packed flags, whose low
    /// nibble is zero.
    pub fn get_af(&self) -> (value: u16)
        ensures
            value == self.af(),
            value == self.a * 256 + self.f.as_byte(),
            value % 16 == 0,
    {
        join(self.a, self.f.pack())
    }

    /// Writes the pair AF. The low nibble of `value` is dropped, since the
    /// flags have no bits there.
    pub fn set_af(&mut self, value: u16)
        ensures
            *final(self) == old(self).with_af(value),
            final(self).af() == value - value % 16,
    {
        proof {
            lemma_af_round_trip(*old(self), value);
        }
        self.a = upper(value);
        self.f = FlagsRegister::unpack(lower(value));
    }
}

/// Puts a high and a low byte together.
fn join(high: u8, low: u8) -> (value: u16)
    ensures
        value == pair_value(high, low),
        value == high * 256 + low,
{
    proof {
        lemma_pair_value_bits(high, low);
    }
    (high as u16) << 8 | (low as u16)
}

/// Takes the high byte of a 16-bit value.
fn upper(value: u16) -> (byte: u8)
    ensures
        byte == high_byte(value),
{
    proof {
        lemma_byte_bits(value);
    }
    ((value & 0xFF00) >> 8) as u8
}

/// Takes the low byte of a 16-bit value.
fn lower(value: u16) -> (byte: u8)
    ensures
        byte == low_byte(value),
{
    proof {
        lemma_byte_bits(value);
    }
    (value & 0xFF) as u8
}

/// A pair is its high byte shifted left by eight, or-ed with its low byte.
pub proof fn lemma_pair_value_bits(high: u8, low: u8)
    ensures
        pair_value(high, low) == high * 256 + low,
        pair_value(high, low) == (high as u16) << 8 | (low as u16),
{
    assert((high as u16) << 8 | (low as u16) == (high * 256 + low) as u16) by (bit_vector);
}

/// The halves of a 16-bit value are what masking and shifting take out of it.
pub proof fn lemma_byte_bits(value: u16)
    ensures
        high_byte(value) == (value & 0xFF00) >> 8,
        low_byte(value) == value & 0xFF,
{
    assert((value & 0xFF00) >> 8 == value / 256) by (bit_vector);
    assert(value & 0xFF == value % 256) by (bit_vector);
}

/// Splitting a 16-bit value and joining the halves gives the value back.
pub proof fn lemma_split_then_join(value: u16)
    ensures
        pair_value(high_byte(value), low_byte(value)) == value,
{
}

/// Joining two bytes and splitting the pair gives the two bytes back.
pub proof fn lemma_join_then_split(high: u8, low: u8)
    ensures
        high_byte(pair_value(high, low)) == high,
        low_byte(pair_value(high, low)) == low,
{
}

/// Writing a pair and reading it back gives the value written, for BC, DE
/// and HL alike and from any state of the register file.
pub proof fn lemma_pair_round_trip(registers: Registers, value: u16)
    ensures
        registers.with_bc(value).bc() == value,
        registers.with_de(value).de() == value,
        registers.with_hl(value).hl() == value,
{
    lemma_split_then_join(value);
}

/// Writing back the value that a pair reads leaves the register file as it
/// was.
pub proof fn lemma_pair_write_back(registers: Registers)
    ensures
        registers.with_bc(registers.bc()) == registers,
        registers.with_de(registers.de()) == registers,
        registers.with_hl(registers.hl()) == registers,
        registers.with_af(registers.af()) == registers,
{
    lemma_join_then_split(registers.b, registers.c);
    lemma_join_then_split(registers.d, registers.e);
    lemma_join_then_split(registers.h, registers.l);
    lemma_join_then_split(registers.a, registers.f.as_byte());
    lemma_pack_then_unpack(registers.f);
}

/// Writing one pair leaves the other pairs as they were.
pub proof fn lemma_pairs_independent(registers: Registers, value: u16)
    ensures
        registers.with_bc(value).de() == registers.de(),
        registers.with_bc(value).hl() == registers.hl(),
        registers.with_bc(value).af() == registers.af(),
        registers.with_de(value).bc() == registers.bc(),
        registers.with_de(value).hl() == registers.hl(),
        registers.with_de(value).af() == registers.af(),
        registers.with_hl(value).bc() == registers.bc(),
        registers.with_hl(value).de() == registers.de(),
        registers.with_hl(value).af() == registers.af(),
        registers.with_af(value).bc() == registers.bc(),
        registers.with_af(value).de() == registers.de(),
        registers.with_af(value).hl() == registers.hl(),
{
}

/// Writing AF and reading it back gives the value written with its low
/// nibble cleared.
pub proof fn lemma_af_round_trip(registers: Registers, value: u16)
    ensures
        registers.with_af(value).af() == value - value % 16,
{
    lemma_unpack_then_pack(low_byte(value));
}

} // verus!
