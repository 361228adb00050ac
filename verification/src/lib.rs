//! Arithmetic execution core of a Game Boy style 8-bit CPU.
//!
//! The crate models the register file, the condition flags and the execution
//! of already decoded arithmetic instructions. Every function carries a
//! contract that pins down the registers and flags it leaves behind.

pub mod cpu;
