//! A 6502 processor: fetch, decode and execute over a flat 64 KiB memory.
pub mod cpu;
pub mod execute;
pub mod gamepad;
pub mod laws;
pub mod model;
pub mod opcode;
pub mod screen;
pub mod status;
