//! Clinker 6502 emulator core.
//!
//! The CPU register file, the [`bus::Bus`] trait through which the CPU reaches
//! memory and I/O, and an instruction-stepped fetch/decode/execute loop.
//!
//! * Instruction-stepped timing: [`cpu::Cpu::step`] runs one whole instruction
//!   and returns its cycle count; callers advance peripherals by that amount.
//! * The IRQ line is level-sensitive and shared; the NMI line is edge-sensitive.

pub mod bus;
pub mod cpu;
