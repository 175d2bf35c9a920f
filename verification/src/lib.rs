//! An interpreter for the CHIP-8 virtual machine: memory, registers, call
//! stack, timers, the instruction set and the sprite blitter, each with a
//! machine-checked contract.

pub mod application;
pub mod emulator;
pub mod keyboard;
pub mod message;
