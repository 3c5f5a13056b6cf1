//! A verified interpreter for the classic 1970s 8-bit virtual machine:
//! 4096 bytes of memory, sixteen 8-bit registers, a 64x32 monochrome
//! framebuffer, a call stack, two countdown timers and a 16-key keypad,
//! driven one instruction at a time by an external host.

mod entropy;
pub mod isa;
pub mod laws;
pub mod machine;
pub mod sprite;

use vstd::prelude::*;

verus! {

/// Width of the framebuffer in pixels.
pub const WIDTH: usize = 64;

/// Height of the framebuffer in pixels.
pub const HEIGHT: usize = 32;

/// Number of addressable bytes of memory.
pub const RAM_SIZE: usize = 4096;

/// Number of pixels in the framebuffer.
pub const VRAM_SIZE: usize = WIDTH * HEIGHT;

/// Number of general-purpose registers.
pub const NUM_REGISTERS: usize = 16;

/// Number of keypad keys.
pub const NUM_KEYS: usize = 16;

/// First address available to a loaded program; everything below is
/// reserved for the interpreter.
pub const PROGRAM_START: usize = 0x200;

/// Address where the font table of the sixteen hexadecimal glyphs begins.
pub const FONT_BASE: usize = 0x50;

/// Bytes per font glyph.
pub const FONT_GLYPH_SIZE: usize = 5;

} // verus!
