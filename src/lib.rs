//! A CHIP-8 virtual machine: memory, display, keypad, registers and the
//! fetch/decode/execute engine, each specified over a mathematical model.

pub mod config;
pub mod display;
pub mod engine;
pub mod instruction;
pub mod keypad;
pub mod laws;
pub mod machine;
pub mod memory;
mod ops;
pub mod registers;

pub use crate::config::Chip8Config;
pub use crate::display::{Display, FrameBuffer};
pub use crate::engine::Chip8;
pub use crate::instruction::Instruction;
pub use crate::keypad::{Key, KeyError, Keypad};
pub use crate::machine::ExecError;
pub use crate::memory::{Memory, MemoryError};
pub use crate::registers::{Register, Registers};

use vstd::prelude::*;

verus! {

/// Number of bytes in one font glyph.
pub const FONT_CHAR_LENGTH: usize = 5;

/// The built-in font: sixteen glyphs, `0` to `F`, of five rows each.
pub const FONT_DATA: [u8; 80] = [
    0xF0, 0x90, 0x90, 0x90, 0xF0, // 0
    0x20, 0x60, 0x20, 0x20, 0x70, // 1
    0xF0, 0x10, 0xF0, 0x80, 0xF0, // 2
    0xF0, 0x10, 0xF0, 0x10, 0xF0, // 3
    0x90, 0x90, 0xF0, 0x10, 0x10, // 4
    0xF0, 0x80, 0xF0, 0x10, 0xF0, // 5
    0xF0, 0x80, 0xF0, 0x90, 0xF0, // 6
    0xF0, 0x10, 0x20, 0x40, 0x40, // 7
    0xF0, 0x90, 0xF0, 0x90, 0xF0, // 8
    0xF0, 0x90, 0xF0, 0x10, 0xF0, // 9
    0xF0, 0x90, 0xF0, 0x90, 0x90, // A
    0xE0, 0x90, 0xE0, 0x90, 0xE0, // B
    0xF0, 0x80, 0x80, 0x80, 0xF0, // C
    0xE0, 0x90, 0x90, 0x90, 0xE0, // D
    0xF0, 0x80, 0xF0, 0x80, 0xF0, // E
    0xF0, 0x80, 0xF0, 0x80, 0x80, // F
];

/// Address at which the built-in font is stored.
pub const FONT_ADDR: usize = 0x050;

/// Size of the addressable memory, in bytes.
pub const MEM_SIZE: usize = 0x1000;

/// Address at which programs are loaded and execution starts.
pub const ROM_ADDR: usize = 0x200;

/// Capacity of the call stack.
pub const STACK_SIZE: usize = 0x10;

/// Number of general-purpose registers.
pub const REGISTER_COUNT: usize = 0x10;

/// Width of the display, in pixels.
pub const SCREEN_WIDTH: usize = 64;

/// Height of the display, in pixels.
pub const SCREEN_HEIGHT: usize = 32;

} // verus!
