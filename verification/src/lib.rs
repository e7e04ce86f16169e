//! A verified CHIP-8 execution core: instruction codec, machine state
//! (RAM, registers, stack, timers), monochrome display buffer with
//! XOR-draw collision semantics, hex keypad state, and the
//! fetch-decode-execute cycle.

pub mod cpu;
pub mod display;
pub mod kbrd;
pub mod laws;
pub mod mem;
pub mod util;
