//! What the boot program leaves behind.

use vstd::prelude::*;

verus! {

/// The state in which the boot program hands the console over: the stack
/// pointer, the program counter, and the video memory.
#[derive(Debug, PartialEq, Eq)]
pub struct BootROM {
    pub sp: u16,
    pub pc: u16,
    pub vram: [u8; 0x2000],
}

} // verus!
