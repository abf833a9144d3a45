//! An interpreter for the CHIP-8 virtual machine.
//!
//! The machine has sixteen byte registers, a 16-bit index register, 4 KiB of
//! memory, a call stack, two countdown timers, a 64×32 monochrome display and
//! a sixteen-key pad. Everything lives in [`emulator`].

pub mod emulator;
