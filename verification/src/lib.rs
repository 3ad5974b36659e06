//! The core of an emulator for an 8-bit handheld game console: the CPU's
//! instructions, the memory bus that routes every access, and the cartridge
//! with its bank controllers and real-time clock.
//!
//! Each type comes with a mathematical model, and each function with a
//! contract over that model.

pub mod bits;
pub mod bootrom;
pub mod bus;
pub mod cartridge;
pub mod cpu;
pub mod motherboard;
