//! Decoded instructions and their operand selectors.

use vstd::prelude::*;

verus! {

/// A decoded arithmetic instruction, ready to be executed.
#[derive(Clone, Copy, Debug, PartialEq, Eq, Structural)]
pub enum Instruction {
    /// Add an 8-bit register to the accumulator.
    ADD(ArthimeticTarget),
    /// Add an 8-bit register and the carry flag to the accumulator.
    ADC(ArthimeticTarget),
    /// Add a 16-bit source to the HL pair.
    ADDHL(ADDHLTarget),
    /// Subtract an 8-bit register from the accumulator.
    SUB(ArthimeticTarget),
    /// Subtract an 8-bit register and the carry flag from the accumulator.
    /// It can be decoded, but execution rejects it.
    SBC(ArthimeticTarget),
}

/// The 8-bit register that an arithmetic instruction reads its operand from.
#[derive(Clone, Copy, Debug, PartialEq, Eq, Structural)]
pub enum ArthimeticTarget {
    A,
    B,
    C,
    D,
    E,
    H,
    L,
}

/// The 16-bit source of an addition to HL.
#[derive(Clone, Copy, Debug, PartialEq, Eq, Structural)]
pub enum ADDHLTarget {
    BC,
    DE,
    HL,
    /// The stack pointer. The register file holds none, so execution rejects it.
    SP,
}

} // verus!
