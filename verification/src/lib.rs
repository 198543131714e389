//! Core of a Game Boy (DMG) emulator: an LR35902 CPU interpreter, a
//! scanline-based PPU, and the memory bus that connects them, together
//! with cartridge-header parsing.
//!
//! The crate is pure computation: the host window, input events and file
//! loading live outside and hand byte vectors and button states in.
use vstd::prelude::*;

pub mod alu;
pub mod audio;
pub mod cartridge;
pub mod cpu;
pub mod flags;
pub mod gpu;
pub mod input;
pub mod memory;
pub mod system;

verus! {

/// Flag bit positions in the F register: Z (zero) is bit 7.
pub const ZERO_FLAG: u8 = 0x80;
/// N (subtract) is bit 6.
pub const SUBTRACT_FLAG: u8 = 0x40;
/// H (half-carry) is bit 5.
pub const HALF_CARRY_FLAG: u8 = 0x20;
/// C (carry) is bit 4.
pub const CARRY_FLAG: u8 = 0x10;

} // verus!
