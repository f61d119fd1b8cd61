//! A 32-bit virtual machine core: instruction decoder and interpreter, paged
//! memory with a translation cache, interrupt and exception delivery, and the
//! devices reached through the I/O bus.

pub mod alu;
pub mod audio;
pub mod bus;
pub mod cpu;
pub mod disk;
pub mod display;
pub mod instruction;
pub mod keyboard;
pub mod proofs;
pub mod memory;
pub mod mouse;
pub mod runtime;
