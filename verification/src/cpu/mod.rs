//! The CPU: its register file and the execution of decoded instructions.
//!
//! `step` says, as a function from register file and instruction, what one
//! instruction does; `CPU::execute` carries it out in place.

use vstd::prelude::*;

pub mod alu;
pub mod flags_register;
pub mod instruction;
pub mod registers;

use self::alu::{
    add16_flags, add16_value, add8_flags, add8_value, bit, sub8_flags, sub8_value,
};
use self::instruction::{ADDHLTarget, ArthimeticTarget, Instruction};
use self::registers::{lemma_split_then_join, Registers};

verus! {

/// Why an instruction was not executed.
#[derive(Clone, Copy, Debug, PartialEq, Eq, Structural)]
pub enum ExecuteError {
    /// The instruction, or the operand it selects, has no execution here.
    UnsupportedInstruction,
}

/// The CPU. It owns its register file.
#[derive(Clone, Debug, PartialEq, Eq, Structural)]
pub struct CPU {
    pub registers: Registers,
}

/// The 16-bit value that an addition to HL reads, where the register file
/// holds one. There is no stack pointer in it, so `SP` selects nothing.
pub open spec fn source16(registers: Registers, target: ADDHLTarget) -> Option<u16> {
    match target {
        ADDHLTarget::BC => Some(registers.bc()),
        ADDHLTarget::DE => Some(registers.de()),
        ADDHLTarget::HL => Some(registers.hl()),
        ADDHLTarget::SP => None,
    }
}

/// Whether `execute` carries the instruction out. `SBC` and an addition of
/// `SP` to HL are rejected.
pub open spec fn supported(instruction: Instruction) -> bool {
    match instruction {
        Instruction::ADD(_) => true,
        Instruction::ADC(_) => true,
        Instruction::ADDHL(target) => target != ADDHLTarget::SP,
        Instruction::SUB(_) => true,
        Instruction::SBC(_) => false,
    }
}

/// The register file that one instruction leaves behind, or the reason why
/// it is not executed.
///
/// 8-bit arithmetic reads the selected register, combines it with the
/// accumulator and writes the accumulator and the flags. An addition to HL
/// reads the selected pair and writes H, L and the flags.
pub open spec fn step(registers: Registers, instruction: Instruction) -> Result<
    Registers,
    ExecuteError,
> {
    match instruction {
        Instruction::ADD(target) => Ok(
            Registers {
                a: add8_value(registers.a, registers.value_of(target), false),
                f: add8_flags(registers.a, registers.value_of(target), false),
                ..registers
            },
        ),
        Instruction::ADC(target) => Ok(
            Registers {
                a: add8_value(registers.a, registers.value_of(target), registers.f.carry),
                f: add8_flags(registers.a, registers.value_of(target), registers.f.carry),
                ..registers
            },
        ),
        Instruction::ADDHL(target) => match source16(registers, target) {
            Some(operand) => Ok(
                Registers { f: add16_flags(registers.hl(), operand), ..registers }.with_hl(
                    add16_value(registers.hl(), operand),
                ),
            ),
            None => Err(ExecuteError::UnsupportedInstruction),
        },
        Instruction::SUB(target) => Ok(
            Registers {
                a: sub8_value(registers.a, registers.value_of(target)),
                f: sub8_flags(registers.f, registers.a, registers.value_of(target)),
                ..registers
            },
        ),
        Instruction::SBC(_) => Err(ExecuteError::UnsupportedInstruction),
    }
}

impl CPU {
    /// Creates a CPU whose registers are all zero and whose flags are all
    /// cleared.
    pub fn new() -> (cpu: CPU)
        ensures
            cpu.registers == Registers::zeroed(),
    {
        CPU { registers: Registers::new() }
    }

    /// Executes one decoded instruction on the register file.
    ///
    /// `SBC` and an addition of `SP` to HL are rejected with
    /// `UnsupportedInstruction`, and then no register and no flag changes.
    /// Every other instruction succeeds and leaves the register file that
    /// `step` describes.
    pub fn execute(&mut self, instruction: Instruction) -> (outcome: Result<(), ExecuteError>)
        ensures
            outcome is Ok <==> supported(instruction),
            outcome is Err ==> outcome == Err::<(), ExecuteError>(
                ExecuteError::UnsupportedInstruction,
            ),
            match step(old(self).registers, instruction) {
                Ok(registers) => outcome is Ok && final(self).registers == registers,
                Err(error) => outcome == Err::<(), ExecuteError>(error) && final(self).registers
                    == old(self).registers,
            },
    {
        match instruction {
            Instruction::ADD(target) => {
                let value: u8 = self.registers.read(target);
                let new_value: u8 = self.add(value, false);
                self.registers.a = new_value;
                Ok(())
            },
            Instruction::ADC(target) => {
                let value: u8 = self.registers.read(target);
                let new_value: u8 = self.add(value, true);
                self.registers.a = new_value;
                Ok(())
            },
            Instruction::ADDHL(target) => {
                let value: u16 = match target {
                    ADDHLTarget::BC => self.registers.get_bc(),
                    ADDHLTarget::DE => self.registers.get_de(),
                    ADDHLTarget::HL => self.registers.get_hl(),
                    ADDHLTarget::SP => {
                        return Err(ExecuteError::UnsupportedInstruction);
                    },
                };
                let new_value: u16 = self.add_hl(value);
                self.registers.set_hl(new_value);
                Ok(())
            },
            Instruction::SUB(target) => {
                let value: u8 = self.registers.read(target);
                let new_value: u8 = self.sub(value);
                self.registers.a = new_value;
                Ok(())
            },
            Instruction::SBC(_) => Err(ExecuteError::UnsupportedInstruction),
        }
    }

    /// Adds `value` to the accumulator, and the carry flag too where
    /// `add_carry` is set, and returns the sum modulo 256.
    ///
    /// All four flags are updated. The accumulator itself is left as it was:
    /// the caller writes the result where it belongs.
    pub fn add(&mut self, value: u8, add_carry: bool) -> (result: u8)
        ensures
            result == (old(self).registers.a + value + bit(
                add_carry && old(self).registers.f.carry,
            )) % 256,
            final(self).registers.f.zero <==> result == 0,
            !final(self).registers.f.subtract,
            final(self).registers.f.half_carry <==> old(self).registers.a % 16 + value % 16 + bit(
                add_carry && old(self).registers.f.carry,
            ) > 0xF,
            final(self).registers.f.carry <==> old(self).registers.a + value + bit(
                add_carry && old(self).registers.f.carry,
            ) > 0xFF,
            result == add8_value(
                old(self).registers.a,
                value,
                add_carry && old(self).registers.f.carry,
            ),
            final(self).registers == (Registers {
                f: add8_flags(
                    old(self).registers.a,
                    value,
                    add_carry && old(self).registers.f.carry,
                ),
                ..old(self).registers
            }),
    {
        let additional_carry: u8 = if add_carry && self.registers.f.carry {
            1
        } else {
            0
        };
        let accumulator: u8 = self.registers.a;
        let sum: u16 = accumulator as u16 + value as u16 + additional_carry as u16;
        proof {
            assert(sum & 0xFF == sum % 256) by (bit_vector);
            assert(accumulator & 0xF == accumulator % 16) by (bit_vector);
            assert(value & 0xF == value % 16) by (bit_vector);
        }
        let final_value: u8 = (sum & 0xFF) as u8;
        let low_nibbles: u8 = (accumulator & 0xF) + (value & 0xF) + additional_carry;
        self.registers.f.zero = final_value == 0;
        self.registers.f.subtract = false;
        self.registers.f.carry = sum > 0xFF;
        self.registers.f.half_carry = low_nibbles > 0xF;
        final_value
    }

    /// Adds `value` to the pair HL and returns the sum modulo 65536.
    ///
    /// All four flags are updated; the half-carry flag is set when the low
    /// bytes of the two operands add up to more than 0xF. H and L themselves
    /// are left as they were: the caller writes the result where it belongs.
    pub fn add_hl(&mut self, value: u16) -> (result: u16)
        ensures
            result == (old(self).registers.hl() + value) % 0x1_0000,
            final(self).registers.f.zero <==> result == 0,
            !final(self).registers.f.subtract,
            final(self).registers.f.half_carry <==> old(self).registers.hl() % 256 + value % 256
                > 0xF,
            final(self).registers.f.carry <==> old(self).registers.hl() + value > 0xFFFF,
            result == add16_value(old(self).registers.hl(), value),
            final(self).registers == (Registers {
                f: add16_flags(old(self).registers.hl(), value),
                ..old(self).registers
            }),
    {
        let hl: u16 = self.registers.get_hl();
        let sum: u32 = hl as u32 + value as u32;
        proof {
            assert(sum & 0xFFFF == sum % 0x1_0000) by (bit_vector);
            assert(hl & 0xFF == hl % 256) by (bit_vector);
            assert(value & 0xFF == value % 256) by (bit_vector);
        }
        let new_value: u16 = (sum & 0xFFFF) as u16;
        let low_bytes: u16 = (hl & 0xFF) + (value & 0xFF);
        self.registers.f.zero = new_value == 0;
        self.registers.f.subtract = false;
        self.registers.f.carry = sum > 0xFFFF;
        self.registers.f.half_carry = low_bytes > 0xF;
        new_value
    }

    /// Subtracts `value` from the accumulator and returns the difference
    /// modulo 256.
    ///
    /// The zero flag follows the result, the subtract flag is set, and the
    /// carry flag reports a borrow. The half-carry flag keeps the value it
    /// had. The accumulator itself is left as it was.
    pub fn sub(&mut self, value: u8) -> (result: u8)
        ensures
            result == (old(self).registers.a - value) % 256,
            final(self).registers.f.zero <==> result == 0,
            final(self).registers.f.subtract,
            final(self).registers.f.half_carry == old(self).registers.f.half_carry,
            final(self).registers.f.carry <==> value > old(self).registers.a,
            result == sub8_value(old(self).registers.a, value),
            final(self).registers == (Registers {
                f: sub8_flags(old(self).registers.f, old(self).registers.a, value),
                ..old(self).registers
            }),
    {
        let accumulator: u8 = self.registers.a;
        let new_value: u8 = accumulator.wrapping_sub(value);
        self.registers.f.zero = new_value == 0;
        self.registers.f.subtract = true;
        self.registers.f.carry = value > accumulator;
        new_value
    }
}

/// An instruction is executed exactly when it is supported, and the only
/// error is `UnsupportedInstruction`.
pub proof fn lemma_step_supported(registers: Registers, instruction: Instruction)
    ensures
        step(registers, instruction) is Ok <==> supported(instruction),
        step(registers, instruction) is Err ==> step(registers, instruction) == Err::<
            Registers,
            ExecuteError,
        >(ExecuteError::UnsupportedInstruction),
{
}

/// What an instruction leaves alone: 8-bit arithmetic writes only the
/// accumulator and the flags, an addition to HL writes only H, L and the
/// flags.
pub proof fn lemma_step_frame(registers: Registers, instruction: Instruction)
    requires
        supported(instruction),
    ensures
        instruction is ADDHL ==> step(registers, instruction) == Ok::<Registers, ExecuteError>(
            Registers {
                f: step(registers, instruction)->Ok_0.f,
                h: step(registers, instruction)->Ok_0.h,
                l: step(registers, instruction)->Ok_0.l,
                ..registers
            },
        ),
        !(instruction is ADDHL) ==> step(registers, instruction) == Ok::<Registers, ExecuteError>(
            Registers {
                a: step(registers, instruction)->Ok_0.a,
                f: step(registers, instruction)->Ok_0.f,
                ..registers
            },
        ),
{
}

/// After an addition to HL the pair reads the 16-bit sum of its old value
/// and the selected pair, modulo 65536.
pub proof fn lemma_step_addhl(registers: Registers, target: ADDHLTarget)
    requires
        target != ADDHLTarget::SP,
    ensures
        step(registers, Instruction::ADDHL(target)) is Ok,
        step(registers, Instruction::ADDHL(target))->Ok_0.hl() == (registers.hl() + source16(
            registers,
            target,
        )->Some_0) % 0x1_0000,
{
    lemma_split_then_join(add16_value(registers.hl(), source16(registers, target)->Some_0));
}

/// With the carry flag clear, add-with-carry does what plain add does.
pub proof fn lemma_adc_without_carry_is_add(registers: Registers, target: ArthimeticTarget)
    requires
        !registers.f.carry,
    ensures
        step(registers, Instruction::ADC(target)) == step(registers, Instruction::ADD(target)),
{
}

} // verus!
