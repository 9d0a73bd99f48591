//! Core of a Game Boy style 8-bit machine: the register file and flags
//! register, the memory bus with its fixed address map, the instruction
//! decoder, and the fetch-decode-execute engine with exact byte-level
//! arithmetic, flag computation and cycle accounting.
//!
//! Windowing, rendering to a display, audio and file loading are left to the
//! surrounding program; this crate holds the machine model itself.

pub mod arithmetictarget;
pub mod cpu;
pub mod flagsregister;
pub mod gpu;
pub mod instruction;
pub mod memory_behavior;
pub mod memory_zone;
pub mod memorybus;
pub mod registers;
pub mod vram;
