//! A verified CHIP-8 virtual machine core: machine state, opcode decoding,
//! and the instruction executor, together with the keypad and framebuffer
//! models the executor drives.

pub mod constants;
pub mod display;
pub mod emu;
pub mod keyboard;
