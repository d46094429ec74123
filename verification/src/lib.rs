//! An interpreter for the CHIP-8 virtual machine: 4096 bytes of memory,
//! sixteen 8-bit registers, a 64 by 32 monochrome display, two timers and a
//! sixteen-key keypad, driven by some 35 instructions of two bytes each.
//!
//! The interpreter is a state machine without input or output of its own. A
//! step takes the state of the keypad and a random byte and returns the
//! signals for the display surface and the tone generator; a tick counts the
//! timers down. Whoever drives it supplies the keys, the clock and the
//! randomness, and presents what it signals.
pub mod chip8;
pub mod fault;
pub mod graphics;
pub mod instruction;
pub mod keyboard;
pub mod machine;
pub mod memory;
pub mod registers;
pub mod signals;
