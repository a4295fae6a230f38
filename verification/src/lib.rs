//! A verified CHIP-8 virtual machine core: memory with built-in font data, a
//! sixteen-register file, a call stack, a monochrome XOR display, two countdown
//! timers, a sixteen-key input matrix with a wait-for-key protocol, an opcode
//! decoder with legacy/modern quirk variants, and a single-step executor.

pub mod devices;
pub mod instructions;
pub mod interpreter;
