//! The CPU: its registers and flags, its interrupt state, and the
//! instructions it executes.

use crate::bits::{bit_set, lemma_byte_bits};
use crate::bus::{
    applied, high_byte, lemma_applied_none, lemma_applied_one, lemma_applied_word, lemma_word_bits,
    low_byte, next_address, previous_address, reads, word, word_writes, Bus,
};
use vstd::prelude::*;

verus! {

/// The zero flag: bit 7 of `f`.
pub const FLAG_Z: u8 = 0x80;

/// The subtract flag: bit 6 of `f`.
pub const FLAG_N: u8 = 0x40;

/// The half-carry flag: bit 5 of `f`.
pub const FLAG_H: u8 = 0x20;

/// The carry flag: bit 4 of `f`.
pub const FLAG_C: u8 = 0x10;

/// The bits of `f` that hold flags. The low nibble of `f` is always zero.
pub const FLAG_MASK: u8 = 0xF0;

/// The bits of the interrupt registers that are in use, one per source:
/// vertical blank, display status, timer, serial, joypad (bit 0 to bit 4).
pub const INTERRUPT_MASK: u8 = 0x1F;

/// What it costs to enter an interrupt handler.
pub const INTERRUPT_CYCLES: u32 = 20;

/// What one step of a halted CPU costs.
pub const HALTED_CYCLES: u32 = 4;

/// The largest number of cycles that one step consumes.
pub const MAX_STEP_CYCLES: u32 = 20;

/// Why a step did not execute an instruction.
#[derive(Clone, Copy, Debug, PartialEq, Eq, Structural)]
pub enum CpuError {
    /// The opcode fetched has no decode entry.
    UnimplementedOpcode(u8),
}

/// The state of the CPU.
#[derive(Clone, Copy, Debug, PartialEq, Eq, Structural)]
pub struct CPU {
    /// The accumulator.
    pub a: u8,
    /// The flags, in the high nibble.
    pub f: u8,
    pub b: u8,
    pub c: u8,
    pub d: u8,
    pub e: u8,
    pub h: u8,
    pub l: u8,
    /// The stack pointer.
    pub sp: u16,
    /// The program counter.
    pub pc: u16,
    /// The interrupt master enable.
    pub interrupt_master_enable: bool,
    /// Set by the enable instruction: the master enable is switched on once
    /// the next opcode has been fetched.
    pub interrupt_queued: bool,
    /// Set by the halt instruction: nothing is fetched until an enabled
    /// interrupt is requested.
    pub halted: bool,
    /// Set by the stop instruction.
    pub stopped: bool,
    /// The interrupts requested, one bit per source.
    pub interrupts_flag: u8,
    /// The interrupts enabled, one bit per source.
    pub interrupts_enabled: u8,
}

/// What one step does: the CPU after it, the bytes it writes to the bus, in
/// order, and the cycles it consumes or the fault it ends in.
pub ghost struct Step {
    pub cpu: CPU,
    pub writes: Seq<(u16, u8)>,
    pub result: Result<u32, CpuError>,
}

/// The flag byte with the four flags as given, and nothing in its low
/// nibble.
pub open spec fn flags(z: bool, n: bool, h: bool, c: bool) -> u8 {
    ((if z {
        0x80int
    } else {
        0
    }) + (if n {
        0x40int
    } else {
        0
    }) + (if h {
        0x20int
    } else {
        0
    }) + (if c {
        0x10int
    } else {
        0
    })) as u8
}

/// A byte rotated left by one bit: bit 7 comes back in as bit 0.
/// `lemma_rotate_left_value` gives the result in terms of arithmetic.
pub open spec fn rotate_left(value: u8) -> u8 {
    (value << 1) | (value >> 7)
}

/// A byte rotated right by one bit: bit 0 comes back in as bit 7.
/// `lemma_rotate_right_value` gives the result in terms of arithmetic.
pub open spec fn rotate_right(value: u8) -> u8 {
    (value >> 1) | (value << 7)
}

/// The sum of two words, wrapped to 16 bits.
pub open spec fn wrapping_sum(x: u16, y: u16) -> u16 {
    ((x as int + y as int) % 0x10000) as u16
}

/// The bit of interrupt `source` in the interrupt registers.
pub open spec fn interrupt_bit(source: u8) -> u8 {
    if source == 0 {
        0x01
    } else if source == 1 {
        0x02
    } else if source == 2 {
        0x04
    } else if source == 3 {
        0x08
    } else {
        0x10
    }
}

/// The address of the handler of interrupt `source`.
pub open spec fn interrupt_vector(source: u8) -> u16 {
    (0x0040 + 8 * (source as int)) as u16
}

/// The step that ends after `cycles` with `cpu` and nothing written.
pub open spec fn done(cpu: CPU, cycles: u32) -> Step {
    Step { cpu, writes: Seq::empty(), result: Ok(cycles) }
}

/// Packs four flags into a flag byte.
pub fn pack_flags(z: bool, n: bool, h: bool, c: bool) -> (f: u8)
    ensures
        f == flags(z, n, h, c),
{
    proof {
        lemma_flag_bits(z, n, h, c);
    }
    (if z {
        FLAG_Z
    } else {
        0
    }) | (if n {
        FLAG_N
    } else {
        0
    }) | (if h {
        FLAG_H
    } else {
        0
    }) | (if c {
        FLAG_C
    } else {
        0
    })
}

/// The flag byte as the bits of its four flags.
proof fn lemma_flag_bits(z: bool, n: bool, h: bool, c: bool)
    by (bit_vector)
    ensures
        (if z {
            0x80u8
        } else {
            0
        }) | (if n {
            0x40u8
        } else {
            0
        }) | (if h {
            0x20u8
        } else {
            0
        }) | (if c {
            0x10u8
        } else {
            0
        }) == flags(z, n, h, c),
{
}

/// The interrupts that are pending, as the bits of the two interrupt
/// registers.
proof fn lemma_pending_bits(enabled: u8, flag: u8)
    by (bit_vector)
    ensures
        ((enabled & flag & 0x1F) & 0x01 != 0) == (bit_set(enabled, 0x01) && bit_set(flag, 0x01)),
        ((enabled & flag & 0x1F) & 0x02 != 0) == (bit_set(enabled, 0x02) && bit_set(flag, 0x02)),
        ((enabled & flag & 0x1F) & 0x04 != 0) == (bit_set(enabled, 0x04) && bit_set(flag, 0x04)),
        ((enabled & flag & 0x1F) & 0x08 != 0) == (bit_set(enabled, 0x08) && bit_set(flag, 0x08)),
        ((enabled & flag & 0x1F) & 0x10 != 0) == (bit_set(enabled, 0x10) && bit_set(flag, 0x10)),
        (enabled & flag & 0x1F != 0) == (bit_set(enabled, 0x01) && bit_set(flag, 0x01) || bit_set(
            enabled,
            0x02,
        ) && bit_set(flag, 0x02) || bit_set(enabled, 0x04) && bit_set(flag, 0x04) || bit_set(
            enabled,
            0x08,
        ) && bit_set(flag, 0x08) || bit_set(enabled, 0x10) && bit_set(flag, 0x10)),
{
}

/// Clearing a bit that is set takes its value off.
proof fn lemma_clear_bit(flag: u8)
    by (bit_vector)
    ensures
        bit_set(flag, 0x01) ==> flag & !0x01u8 == flag - 0x01,
        bit_set(flag, 0x02) ==> flag & !0x02u8 == flag - 0x02,
        bit_set(flag, 0x04) ==> flag & !0x04u8 == flag - 0x04,
        bit_set(flag, 0x08) ==> flag & !0x08u8 == flag - 0x08,
        bit_set(flag, 0x10) ==> flag & !0x10u8 == flag - 0x10,
{
}

/// A rotation to the left, in terms of arithmetic: the byte is doubled, and
/// what leaves at the top comes back in at the bottom.
pub proof fn lemma_rotate_left_value(value: u8)
    by (bit_vector)
    ensures
        rotate_left(value) == (value * 2) % 256 + value / 128,
{
}

/// A rotation to the right, in terms of arithmetic: the byte is halved, and
/// what leaves at the bottom comes back in at the top.
pub proof fn lemma_rotate_right_value(value: u8)
    by (bit_vector)
    ensures
        rotate_right(value) == value / 2 + (value % 2) * 128,
{
}

/// Eight rotations to the left give the byte back.
pub proof fn lemma_rotate_left_eight(a: u8)
    by (bit_vector)
    ensures
        rotate_left(
            rotate_left(
                rotate_left(
                    rotate_left(rotate_left(rotate_left(rotate_left(rotate_left(a))))),
                ),
            ),
        ) == a,
{
}

/// Eight rotations to the right give the byte back.
pub proof fn lemma_rotate_right_eight(a: u8)
    by (bit_vector)
    ensures
        rotate_right(
            rotate_right(
                rotate_right(
                    rotate_right(rotate_right(rotate_right(rotate_right(rotate_right(a))))),
                ),
            ),
        ) == a,
{
}

impl CPU {
    /// The CPU at power-on, when the boot program has run: the program
    /// counter at 0x0100, the stack pointer at 0xFFFE, everything else zero.
    pub open spec fn power_on() -> CPU {
        CPU {
            a: 0,
            f: 0,
            b: 0,
            c: 0,
            d: 0,
            e: 0,
            h: 0,
            l: 0,
            sp: 0xFFFE,
            pc: 0x0100,
            interrupt_master_enable: false,
            interrupt_queued: false,
            halted: false,
            stopped: false,
            interrupts_flag: 0,
            interrupts_enabled: 0,
        }
    }

    /// The low nibble of `f` is zero.
    pub open spec fn flags_valid(self) -> bool {
        self.f % 16 == 0
    }

    /// The zero flag.
    pub open spec fn zero(self) -> bool {
        bit_set(self.f, FLAG_Z)
    }

    /// The subtract flag.
    pub open spec fn subtract(self) -> bool {
        bit_set(self.f, FLAG_N)
    }

    /// The half-carry flag.
    pub open spec fn half_carry(self) -> bool {
        bit_set(self.f, FLAG_H)
    }

    /// The carry flag.
    pub open spec fn carry(self) -> bool {
        bit_set(self.f, FLAG_C)
    }

    /// The register pair BC: B is the high byte, C the low byte.
    pub open spec fn bc_spec(self) -> u16 {
        word(self.c, self.b)
    }

    /// The register pair DE: D is the high byte, E the low byte.
    pub open spec fn de_spec(self) -> u16 {
        word(self.e, self.d)
    }

    /// The register pair HL: H is the high byte, L the low byte.
    pub open spec fn hl_spec(self) -> u16 {
        word(self.l, self.h)
    }

    /// This CPU with BC holding `value`.
    pub open spec fn with_bc(self, value: u16) -> CPU {
        CPU { b: high_byte(value), c: low_byte(value), ..self }
    }

    /// This CPU with DE holding `value`.
    pub open spec fn with_de(self, value: u16) -> CPU {
        CPU { d: high_byte(value), e: low_byte(value), ..self }
    }

    /// This CPU with HL holding `value`.
    pub open spec fn with_hl(self, value: u16) -> CPU {
        CPU { h: high_byte(value), l: low_byte(value), ..self }
    }

    /// An 8-bit increment of `r`: the CPU after it, and the result.
    ///
    /// Zero is set when the result is zero, subtract is cleared, half-carry
    /// is set when the low nibble of `r` was 0xF, carry stays.
    pub open spec fn inc8_spec(self, r: u8) -> (CPU, u8) {
        let result = if r == 0xFF {
            0u8
        } else {
            (r + 1) as u8
        };
        (CPU { f: flags(result == 0, false, r % 16 == 15, self.carry()), ..self }, result)
    }

    /// An 8-bit decrement of `r`: the CPU after it, and the result.
    ///
    /// Zero is set when the result is zero, subtract is set, half-carry is
    /// set when the low nibble of `r` was 0x0, carry stays.
    pub open spec fn dec8_spec(self, r: u8) -> (CPU, u8) {
        let result = if r == 0 {
            0xFFu8
        } else {
            (r - 1) as u8
        };
        (CPU { f: flags(result == 0, true, r % 16 == 0, self.carry()), ..self }, result)
    }

    /// A 16-bit addition of `x` and `y`: the CPU after it, and the sum.
    ///
    /// Zero stays, subtract is cleared, half-carry is the carry out of bit
    /// 11 of the two operands, carry is the carry out of bit 15.
    pub open spec fn add16_spec(self, x: u16, y: u16) -> (CPU, u16) {
        (
            CPU {
                f: flags(
                    self.zero(),
                    false,
                    (x % 0x1000) + (y % 0x1000) > 0x0FFF,
                    x + y > 0xFFFF,
                ),
                ..self
            },
            wrapping_sum(x, y),
        )
    }

    /// The accumulator rotated left: bit 7 goes to the carry flag and comes
    /// back in as bit 0. The other flags are cleared.
    pub open spec fn rlca_spec(self) -> CPU {
        CPU { a: rotate_left(self.a), f: flags(false, false, false, self.a >= 0x80), ..self }
    }

    /// The accumulator rotated right: bit 0 goes to the carry flag and comes
    /// back in as bit 7. The other flags are cleared.
    pub open spec fn rrca_spec(self) -> CPU {
        CPU { a: rotate_right(self.a), f: flags(false, false, false, self.a % 2 == 1), ..self }
    }

    /// The accumulator rotated left `times` times.
    pub open spec fn rlca_times(self, times: nat) -> CPU
        decreases times,
    {
        if times == 0 {
            self
        } else {
            self.rlca_spec().rlca_times((times - 1) as nat)
        }
    }

    /// The accumulator rotated right `times` times.
    pub open spec fn rrca_times(self, times: nat) -> CPU
        decreases times,
    {
        if times == 0 {
            self
        } else {
            self.rrca_spec().rrca_times((times - 1) as nat)
        }
    }

    /// Whether interrupt `source` is both requested and enabled.
    pub open spec fn interrupt_pending(self, source: u8) -> bool {
        bit_set(self.interrupts_enabled, interrupt_bit(source)) && bit_set(
            self.interrupts_flag,
            interrupt_bit(source),
        )
    }

    /// Whether an interrupt is both requested and enabled.
    pub open spec fn any_interrupt_pending(self) -> bool {
        self.interrupt_pending(0) || self.interrupt_pending(1) || self.interrupt_pending(2)
            || self.interrupt_pending(3) || self.interrupt_pending(4)
    }

    /// The pending interrupt with the lowest bit, where one is pending.
    pub open spec fn lowest_pending(self) -> u8 {
        if self.interrupt_pending(0) {
            0
        } else if self.interrupt_pending(1) {
            1
        } else if self.interrupt_pending(2) {
            2
        } else if self.interrupt_pending(3) {
            3
        } else {
            4
        }
    }

    /// Entering the handler of the lowest pending interrupt: the program
    /// counter is pushed, the master enable cleared, the request bit
    /// cleared, and the CPU is no longer halted.
    pub open spec fn dispatch_spec(self) -> Step {
        let source = self.lowest_pending();
        let sp = previous_address(previous_address(self.sp));
        Step {
            cpu: CPU {
                sp,
                pc: interrupt_vector(source),
                interrupt_master_enable: false,
                halted: false,
                interrupts_flag: (self.interrupts_flag - interrupt_bit(source)) as u8,
                ..self
            },
            writes: word_writes(sp, self.pc),
            result: Ok(INTERRUPT_CYCLES),
        }
    }

    /// The CPU once an opcode has been fetched: the program counter is past
    /// it, and a queued enable of interrupts has taken effect.
    pub open spec fn fetched(self) -> CPU {
        CPU {
            pc: next_address(self.pc),
            interrupt_master_enable: self.interrupt_master_enable || self.interrupt_queued,
            interrupt_queued: false,
            halted: false,
            ..self
        }
    }

    /// The byte an instruction fetches as its operand, and the CPU past it.
    pub open spec fn fetch8_spec(self, memory: spec_fn(u16) -> u8) -> (CPU, u8) {
        (CPU { pc: next_address(self.pc), ..self }, memory(self.pc))
    }

    /// The word an instruction fetches as its operand, low byte first, and
    /// the CPU past it.
    pub open spec fn fetch16_spec(self, memory: spec_fn(u16) -> u8) -> (CPU, u16) {
        (
            CPU { pc: next_address(next_address(self.pc)), ..self },
            word(memory(self.pc), memory(next_address(self.pc))),
        )
    }

    /// What the instruction with `opcode` does, for a CPU whose program
    /// counter is past the opcode and a memory that reads as `memory`.
    pub open spec fn execute_spec(self, opcode: u8, memory: spec_fn(u16) -> u8) -> Step {
        match opcode {
            // NOP
            0x00 => done(self, 4),
            // LD BC, d16
            0x01 => {
                let (cpu, d16) = self.fetch16_spec(memory);
                done(cpu.with_bc(d16), 12)
            },
            // LD (BC), A
            0x02 => Step { cpu: self, writes: seq![(self.bc_spec(), self.a)], result: Ok(8) },
            // INC BC
            0x03 => done(self.with_bc(next_address(self.bc_spec())), 8),
            // INC B
            0x04 => {
                let (cpu, b) = self.inc8_spec(self.b);
                done(CPU { b, ..cpu }, 4)
            },
            // DEC B
            0x05 => {
                let (cpu, b) = self.dec8_spec(self.b);
                done(CPU { b, ..cpu }, 4)
            },
            // LD B, d8
            0x06 => {
                let (cpu, b) = self.fetch8_spec(memory);
                done(CPU { b, ..cpu }, 8)
            },
            // RLCA
            0x07 => done(self.rlca_spec(), 4),
            // LD (a16), SP
            0x08 => {
                let (cpu, a16) = self.fetch16_spec(memory);
                Step { cpu, writes: word_writes(a16, self.sp), result: Ok(20) }
            },
            // ADD HL, BC
            0x09 => {
                let (cpu, sum) = self.add16_spec(self.hl_spec(), self.bc_spec());
                done(cpu.with_hl(sum), 8)
            },
            // LD A, (BC)
            0x0A => done(CPU { a: memory(self.bc_spec()), ..self }, 8),
            // DEC BC
            0x0B => done(self.with_bc(previous_address(self.bc_spec())), 8),
            // INC C
            0x0C => {
                let (cpu, c) = self.inc8_spec(self.c);
                done(CPU { c, ..cpu }, 4)
            },
            // DEC C
            0x0D => {
                let (cpu, c) = self.dec8_spec(self.c);
                done(CPU { c, ..cpu }, 4)
            },
            // LD C, d8
            0x0E => {
                let (cpu, c) = self.fetch8_spec(memory);
                done(CPU { c, ..cpu }, 8)
            },
            // RRCA
            0x0F => done(self.rrca_spec(), 4),
            // STOP
            0x10 => done(CPU { stopped: true, ..self }, 4),
            // LD DE, d16
            0x11 => {
                let (cpu, d16) = self.fetch16_spec(memory);
                done(cpu.with_de(d16), 12)
            },
            // LD (DE), A
            0x12 => Step { cpu: self, writes: seq![(self.de_spec(), self.a)], result: Ok(8) },
            // INC DE
            0x13 => done(self.with_de(next_address(self.de_spec())), 8),
            // INC D
            0x14 => {
                let (cpu, d) = self.inc8_spec(self.d);
                done(CPU { d, ..cpu }, 4)
            },
            // DEC D
            0x15 => {
                let (cpu, d) = self.dec8_spec(self.d);
                done(CPU { d, ..cpu }, 4)
            },
            // LD D, d8
            0x16 => {
                let (cpu, d) = self.fetch8_spec(memory);
                done(CPU { d, ..cpu }, 8)
            },
            // HALT
            0x76 => done(CPU { halted: true, ..self }, 4),
            // DI
            0xF3 => done(
                CPU { interrupt_master_enable: false, interrupt_queued: false, ..self },
                4,
            ),
            // EI
            0xFB => done(CPU { interrupt_queued: true, ..self }, 4),
            _ => Step {
                cpu: self,
                writes: Seq::empty(),
                result: Err(CpuError::UnimplementedOpcode(opcode)),
            },
        }
    }

    /// What one step does, for a memory that reads as `memory`.
    ///
    /// With the master enable set and an interrupt pending, the step enters
    /// the handler and fetches nothing. A halted CPU with no interrupt
    /// pending idles. Otherwise the opcode at the program counter is fetched
    /// and its instruction executed; a halted CPU that wakes with the master
    /// enable clear goes on after the halt instruction.
    pub open spec fn next(self, memory: spec_fn(u16) -> u8) -> Step {
        if self.interrupt_master_enable && self.any_interrupt_pending() {
            self.dispatch_spec()
        } else if self.halted && !self.any_interrupt_pending() {
            done(self, HALTED_CYCLES)
        } else {
            self.fetched().execute_spec(memory(self.pc), memory)
        }
    }

    /// Whether `cpu`, `bus` and `result` are what one step makes of this CPU
    /// on the bus `before`.
    pub open spec fn stepped<B: Bus>(
        self,
        before: B,
        cpu: CPU,
        bus: B,
        result: Result<u32, CpuError>,
    ) -> bool {
        let step = self.next(reads(before));
        &&& cpu == step.cpu
        &&& result == step.result
        &&& applied(before, step.writes, bus)
    }

    /// Whether `cpu`, `bus` and `result` are what the instruction with
    /// `opcode` makes of this CPU on the bus `before`.
    pub open spec fn executed<B: Bus>(
        self,
        opcode: u8,
        before: B,
        cpu: CPU,
        bus: B,
        result: Result<u32, CpuError>,
    ) -> bool {
        let step = self.execute_spec(opcode, reads(before));
        &&& cpu == step.cpu
        &&& result == step.result
        &&& applied(before, step.writes, bus)
    }

    /// The CPU at power-on.
    pub fn new() -> (cpu: CPU)
        ensures
            cpu == CPU::power_on(),
    {
        CPU {
            a: 0,
            f: 0,
            b: 0,
            c: 0,
            d: 0,
            e: 0,
            h: 0,
            l: 0,
            sp: 0xFFFE,
            pc: 0x0100,
            interrupt_master_enable: false,
            interrupt_queued: false,
            halted: false,
            stopped: false,
            interrupts_flag: 0,
            interrupts_enabled: 0,
        }
    }

    /// Puts the registers, the stack pointer and the program counter back to
    /// their power-on values. The interrupt state is left as it is.
    pub fn reset(&mut self)
        ensures
            *final(self) == (CPU {
                interrupt_master_enable: old(self).interrupt_master_enable,
                interrupt_queued: old(self).interrupt_queued,
                halted: old(self).halted,
                stopped: old(self).stopped,
                interrupts_flag: old(self).interrupts_flag,
                interrupts_enabled: old(self).interrupts_enabled,
                ..CPU::power_on()
            }),
    {
        self.a = 0;
        self.f = 0;
        self.b = 0;
        self.c = 0;
        self.d = 0;
        self.e = 0;
        self.h = 0;
        self.l = 0;
        self.sp = 0xFFFE;
        self.pc = 0x0100;
    }

    /// Executes one step on `bus` and returns the cycles it consumed.
    ///
    /// An opcode without a decode entry ends the step in
    /// `UnimplementedOpcode`, with the program counter past the opcode.
    pub fn step<B: Bus>(&mut self, bus: &mut B) -> (result: Result<u32, CpuError>)
        requires
            old(bus).inv(),
        ensures
            final(bus).inv(),
            old(self).stepped(*old(bus), *final(self), *final(bus), result),
            result matches Ok(cycles) ==> 4 <= cycles <= MAX_STEP_CYCLES,
            old(self).flags_valid() ==> final(self).flags_valid(),
    {
        proof {
            lemma_pending_bits(self.interrupts_enabled, self.interrupts_flag);
        }
        let pending = self.interrupts_enabled & self.interrupts_flag & INTERRUPT_MASK;
        if self.interrupt_master_enable && pending != 0 {
            return Ok(self.dispatch_interrupt(pending, bus));
        }
        if self.halted && pending == 0 {
            proof {
                lemma_applied_none(*bus);
            }
            return Ok(HALTED_CYCLES);
        }
        let opcode = bus.read8(self.pc);
        self.pc = self.pc.wrapping_add(1);
        if self.interrupt_queued {
            self.interrupt_master_enable = true;
            self.interrupt_queued = false;
        }
        self.halted = false;
        proof {
            if self.flags_valid() {
                self.lemma_execute_keeps_flags(opcode, reads(*bus));
            }
        }
        self.execute_instruction(opcode, bus)
    }

    /// Enters the handler of the lowest interrupt in `pending`.
    fn dispatch_interrupt<B: Bus>(&mut self, pending: u8, bus: &mut B) -> (cycles: u32)
        requires
            old(bus).inv(),
            pending == old(self).interrupts_enabled & old(self).interrupts_flag & INTERRUPT_MASK,
            pending != 0,
        ensures
            final(bus).inv(),
            cycles == INTERRUPT_CYCLES,
            *final(self) == old(self).dispatch_spec().cpu,
            applied(*old(bus), old(self).dispatch_spec().writes, *final(bus)),
    {
        proof {
            lemma_pending_bits(self.interrupts_enabled, self.interrupts_flag);
            lemma_clear_bit(self.interrupts_flag);
        }
        let (bit, vector): (u8, u16) = if pending & 0x01 != 0 {
            (0x01, 0x0040)
        } else if pending & 0x02 != 0 {
            (0x02, 0x0048)
        } else if pending & 0x04 != 0 {
            (0x04, 0x0050)
        } else if pending & 0x08 != 0 {
            (0x08, 0x0058)
        } else {
            (0x10, 0x0060)
        };
        let return_address = self.pc;
        self.sp = self.sp.wrapping_sub(2);
        self.pc = vector;
        self.interrupt_master_enable = false;
        self.halted = false;
        self.interrupts_flag = self.interrupts_flag & !bit;
        bus.write16(self.sp, return_address);
        proof {
            lemma_applied_word(*old(bus), *bus, self.sp, return_address);
        }
        INTERRUPT_CYCLES
    }

    /// Fetches the byte at the program counter and moves past it.
    pub fn fetch8<B: Bus>(&mut self, bus: &mut B) -> (byte: u8)
        requires
            old(bus).inv(),
        ensures
            *final(bus) == *old(bus),
            (*final(self), byte) == old(self).fetch8_spec(reads(*old(bus))),
    {
        let byte = bus.read8(self.pc);
        self.pc = self.pc.wrapping_add(1);
        byte
    }

    /// Fetches the word at the program counter, low byte first, and moves
    /// past it.
    pub fn fetch16<B: Bus>(&mut self, bus: &mut B) -> (value: u16)
        requires
            old(bus).inv(),
        ensures
            *final(bus) == *old(bus),
            (*final(self), value) == old(self).fetch16_spec(reads(*old(bus))),
    {
        let lo = self.fetch8(bus) as u16;
        let hi = self.fetch8(bus) as u16;
        proof {
            lemma_word_bits(lo as u8, hi as u8, 0);
        }
        (hi << 8) | lo
    }

    /// Executes the instruction with `opcode`, which has been fetched, and
    /// returns the cycles it consumes.
    pub fn execute_instruction<B: Bus>(&mut self, opcode: u8, bus: &mut B) -> (result: Result<
        u32,
        CpuError,
    >)
        requires
            old(bus).inv(),
        ensures
            final(bus).inv(),
            old(self).executed(opcode, *old(bus), *final(self), *final(bus), result),
    {
        proof {
            lemma_applied_none(*bus);
        }
        match opcode {
            // NOP
            0x00 => {
                self.nop();
                Ok(4)
            },
            // LD BC, d16
            0x01 => {
                let d16 = self.fetch16(bus);
                self.set_bc(d16);
                Ok(12)
            },
            // LD (BC), A
            0x02 => {
                bus.write8(self.bc(), self.a);
                proof {
                    lemma_applied_one(*old(bus), *bus, (self.bc_spec(), self.a));
                }
                Ok(8)
            },
            // INC BC
            0x03 => {
                self.set_bc(self.bc().wrapping_add(1));
                Ok(8)
            },
            // INC B
            0x04 => {
                self.b = self.inc8(self.b);
                Ok(4)
            },
            // DEC B
            0x05 => {
                self.b = self.dec8(self.b);
                Ok(4)
            },
            // LD B, d8
            0x06 => {
                let d8 = self.fetch8(bus);
                self.b = d8;
                Ok(8)
            },
            // RLCA
            0x07 => {
                self.rlca();
                Ok(4)
            },
            // LD (a16), SP
            0x08 => {
                let a16 = self.fetch16(bus);
                bus.write16(a16, self.sp);
                proof {
                    lemma_applied_word(*old(bus), *bus, a16, self.sp);
                }
                Ok(20)
            },
            // ADD HL, BC
            0x09 => {
                let r = self.add16(self.hl(), self.bc());
                self.set_hl(r);
                Ok(8)
            },
            // LD A, (BC)
            0x0A => {
                self.a = bus.read8(self.bc());
                Ok(8)
            },
            // DEC BC
            0x0B => {
                self.set_bc(self.bc().wrapping_sub(1));
                Ok(8)
            },
            // INC C
            0x0C => {
                self.c = self.inc8(self.c);
                Ok(4)
            },
            // DEC C
            0x0D => {
                self.c = self.dec8(self.c);
                Ok(4)
            },
            // LD C, d8
            0x0E => {
                let d8 = self.fetch8(bus);
                self.c = d8;
                Ok(8)
            },
            // RRCA
            0x0F => {
                self.rrca();
                Ok(4)
            },
            // STOP
            0x10 => {
                self.stopped = true;
                Ok(4)
            },
            // LD DE, d16
            0x11 => {
                let d16 = self.fetch16(bus);
                self.set_de(d16);
                Ok(12)
            },
            // LD (DE), A
            0x12 => {
                bus.write8(self.de(), self.a);
                proof {
                    lemma_applied_one(*old(bus), *bus, (self.de_spec(), self.a));
                }
                Ok(8)
            },
            // INC DE
            0x13 => {
                self.set_de(self.de().wrapping_add(1));
                Ok(8)
            },
            // INC D
            0x14 => {
                self.d = self.inc8(self.d);
                Ok(4)
            },
            // DEC D
            0x15 => {
                self.d = self.dec8(self.d);
                Ok(4)
            },
            // LD D, d8
            0x16 => {
                let d8 = self.fetch8(bus);
                self.d = d8;
                Ok(8)
            },
            // HALT
            0x76 => {
                self.halted = true;
                Ok(4)
            },
            // DI
            0xF3 => {
                self.interrupt_master_enable = false;
                self.interrupt_queued = false;
                Ok(4)
            },
            // EI
            0xFB => {
                self.interrupt_queued = true;
                Ok(4)
            },
            _ => Err(CpuError::UnimplementedOpcode(opcode)),
        }
    }

    /// Does nothing.
    pub fn nop(&self) {
    }

    /// Increments `r` and sets the flags of an 8-bit increment.
    pub fn inc8(&mut self, r: u8) -> (result: u8)
        ensures
            (*final(self), result) == old(self).inc8_spec(r),
            result as int == (r as int + 1) % 256,
            final(self).zero() == ((r as int + 1) % 256 == 0),
            !final(self).subtract(),
            final(self).half_carry() == (r & 0x0F == 0x0F),
            final(self).carry() == old(self).carry(),
            final(self).flags_valid(),
    {
        proof {
            lemma_byte_bits(r);
            lemma_byte_bits(self.f);
        }
        let result = r.wrapping_add(1);
        let h = (r & 0x0F) == 0x0F;
        let carry = (self.f & FLAG_C) != 0;
        self.f = pack_flags(result == 0, false, h, carry);
        result
    }

    /// Decrements `r` and sets the flags of an 8-bit decrement.
    pub fn dec8(&mut self, r: u8) -> (result: u8)
        ensures
            (*final(self), result) == old(self).dec8_spec(r),
            result as int == (r as int - 1) % 256,
            final(self).zero() == ((r as int - 1) % 256 == 0),
            final(self).subtract(),
            final(self).half_carry() == (r & 0x0F == 0x00),
            final(self).carry() == old(self).carry(),
            final(self).flags_valid(),
    {
        proof {
            lemma_byte_bits(r);
            lemma_byte_bits(self.f);
        }
        let result = r.wrapping_sub(1);
        let h = (r & 0x0F) == 0x00;
        let carry = (self.f & FLAG_C) != 0;
        self.f = pack_flags(result == 0, true, h, carry);
        result
    }

    /// Adds `x` and `y` and sets the flags of a 16-bit addition.
    pub fn add16(&mut self, x: u16, y: u16) -> (result: u16)
        ensures
            (*final(self), result) == old(self).add16_spec(x, y),
            result as int == (x as int + y as int) % 0x10000,
            final(self).zero() == old(self).zero(),
            !final(self).subtract(),
            final(self).half_carry() == ((x % 0x1000) + (y % 0x1000) > 0x0FFF),
            final(self).carry() == (x + y > 0xFFFF),
            final(self).flags_valid(),
    {
        let sum: u32 = x as u32 + y as u32;
        let h = (x % 0x1000) as u32 + (y % 0x1000) as u32 > 0x0FFF;
        let c = sum > 0xFFFF;
        proof {
            lemma_byte_bits(self.f);
        }
        let z = (self.f & FLAG_Z) != 0;
        self.f = pack_flags(z, false, h, c);
        (sum % 0x10000) as u16
    }

    /// The register pair BC.
    pub fn bc(&self) -> (value: u16)
        ensures
            value == self.bc_spec(),
    {
        proof {
            lemma_word_bits(self.c, self.b, 0);
        }
        ((self.b as u16) << 8) | self.c as u16
    }

    /// Stores `val` in the register pair BC.
    pub fn set_bc(&mut self, val: u16)
        ensures
            *final(self) == old(self).with_bc(val),
            final(self).bc_spec() == val,
    {
        proof {
            lemma_word_bits(0, 0, val);
        }
        self.b = (val >> 8) as u8;
        self.c = (val & 0x00FF) as u8;
    }

    /// The register pair DE.
    pub fn de(&self) -> (value: u16)
        ensures
            value == self.de_spec(),
    {
        proof {
            lemma_word_bits(self.e, self.d, 0);
        }
        ((self.d as u16) << 8) | self.e as u16
    }

    /// Stores `val` in the register pair DE.
    pub fn set_de(&mut self, val: u16)
        ensures
            *final(self) == old(self).with_de(val),
            final(self).de_spec() == val,
    {
        proof {
            lemma_word_bits(0, 0, val);
        }
        self.d = (val >> 8) as u8;
        self.e = (val & 0x00FF) as u8;
    }

    /// The register pair HL.
    pub fn hl(&self) -> (value: u16)
        ensures
            value == self.hl_spec(),
    {
        proof {
            lemma_word_bits(self.l, self.h, 0);
        }
        ((self.h as u16) << 8) | self.l as u16
    }

    /// Stores `val` in the register pair HL.
    pub fn set_hl(&mut self, val: u16)
        ensures
            *final(self) == old(self).with_hl(val),
            final(self).hl_spec() == val,
    {
        proof {
            lemma_word_bits(0, 0, val);
        }
        self.h = (val >> 8) as u8;
        self.l = (val & 0x00FF) as u8;
    }

    /// Rotates the accumulator left by one bit.
    pub fn rlca(&mut self)
        ensures
            *final(self) == old(self).rlca_spec(),
            final(self).a == (old(self).a * 2) % 256 + old(self).a / 128,
            final(self).carry() == bit_set(old(self).a, 0x80),
            bit_set(final(self).a, 0x01) == bit_set(old(self).a, 0x80),
            !final(self).zero() && !final(self).subtract() && !final(self).half_carry(),
            final(self).flags_valid(),
    {
        proof {
            lemma_byte_bits(self.a);
            lemma_rotate_left_value(self.a);
        }
        let out = (self.a & 0x80) != 0;
        self.a = (self.a << 1) | (self.a >> 7);
        self.f = pack_flags(false, false, false, out);
    }

    /// Rotates the accumulator right by one bit.
    pub fn rrca(&mut self)
        ensures
            *final(self) == old(self).rrca_spec(),
            final(self).a == old(self).a / 2 + (old(self).a % 2) * 128,
            final(self).carry() == bit_set(old(self).a, 0x01),
            bit_set(final(self).a, 0x80) == bit_set(old(self).a, 0x01),
            !final(self).zero() && !final(self).subtract() && !final(self).half_carry(),
            final(self).flags_valid(),
    {
        proof {
            lemma_byte_bits(self.a);
            lemma_rotate_right_value(self.a);
        }
        let out = (self.a & 0x01) != 0;
        self.a = (self.a >> 1) | (self.a << 7);
        self.f = pack_flags(false, false, false, out);
    }

    /// Eight rotations to the left bring the accumulator back, and nothing but
    /// the flags has changed. The carry flag then holds bit 0 of the
    /// accumulator, the last bit rotated out; once one rotation has been
    /// made, eight more bring back the whole CPU, flags included.
    pub proof fn law_rlca_eight_times(self)
        ensures
            self.rlca_times(8) == (CPU { f: flags(false, false, false, self.a % 2 == 1), ..self }),
            self.rlca_times(8).a == self.a,
            self.rlca_times(8).carry() == bit_set(self.a, 0x01),
            self.rlca_spec().rlca_times(8) == self.rlca_spec(),
    {
        reveal_with_fuel(CPU::rlca_times, 9);
        lemma_rotate_left_eight(self.a);
        lemma_rotate_left_eight(rotate_left(self.a));
        let seventh = rotate_left(
            rotate_left(rotate_left(rotate_left(rotate_left(rotate_left(rotate_left(self.a)))))),
        );
        lemma_rotate_left_value(seventh);
        lemma_rotate_left_value(self.a);
    }

    /// Eight rotations to the left bring back the accumulator and the carry
    /// flag, where the carry flag held bit 0 of the accumulator.
    pub proof fn law_rlca_eight_restores(self)
        requires
            self.carry() == bit_set(self.a, 0x01),
        ensures
            self.rlca_times(8).a == self.a,
            self.rlca_times(8).carry() == self.carry(),
    {
        self.law_rlca_eight_times();
    }

    /// Eight rotations to the right bring the accumulator back, and nothing
    /// but the flags has changed. The carry flag then holds bit 7 of the
    /// accumulator, the last bit rotated out; once one rotation has been
    /// made, eight more bring back the whole CPU, flags included.
    pub proof fn law_rrca_eight_times(self)
        ensures
            self.rrca_times(8) == (CPU { f: flags(false, false, false, self.a >= 0x80), ..self }),
            self.rrca_times(8).a == self.a,
            self.rrca_times(8).carry() == bit_set(self.a, 0x80),
            self.rrca_spec().rrca_times(8) == self.rrca_spec(),
    {
        reveal_with_fuel(CPU::rrca_times, 9);
        lemma_rotate_right_eight(self.a);
        lemma_rotate_right_eight(rotate_right(self.a));
        let seventh = rotate_right(
            rotate_right(rotate_right(rotate_right(rotate_right(rotate_right(rotate_right(self.a)))))),
        );
        lemma_rotate_right_value(seventh);
        lemma_rotate_right_value(self.a);
    }

    /// Eight rotations to the right bring back the accumulator and the carry
    /// flag, where the carry flag held bit 7 of the accumulator.
    pub proof fn law_rrca_eight_restores(self)
        requires
            self.carry() == bit_set(self.a, 0x80),
        ensures
            self.rrca_times(8).a == self.a,
            self.rrca_times(8).carry() == self.carry(),
    {
        self.law_rrca_eight_times();
    }

    /// Every step that ends without a fault consumes at least 4 cycles and
    /// at most `MAX_STEP_CYCLES`, and a step that ends in a fault writes
    /// nothing.
    pub proof fn law_step_cycles(self, memory: spec_fn(u16) -> u8)
        ensures
            self.next(memory).result matches Ok(cycles) ==> 4 <= cycles <= MAX_STEP_CYCLES,
            self.next(memory).result is Err ==> self.next(memory).writes.len() == 0,
    {
    }

    /// No instruction puts anything in the low nibble of `f`.
    pub proof fn lemma_execute_keeps_flags(self, opcode: u8, memory: spec_fn(u16) -> u8)
        requires
            self.flags_valid(),
        ensures
            self.execute_spec(opcode, memory).cpu.flags_valid(),
    {
    }
}

} // verus!
