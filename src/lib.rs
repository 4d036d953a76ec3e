//! The ARMv4T instruction core of a Game Boy Advance emulator: a banked
//! register file, the barrel shifter and addressing modes, and the ARM and
//! Thumb decoders and executors, each stated over a model of the machine.
pub mod bitfield;
pub mod utils;
pub mod cpu;
pub mod memory;
pub mod emulator;
pub mod arm;
pub mod thumb;
