//! The system loop: the CPU and its bus, run frame by frame.

use crate::bus::{lemma_applied_view, reads, Bus, BusMut, BusView};
use crate::cartridge::Cartridge;
use crate::cpu::{CpuError, Step, CPU, MAX_STEP_CYCLES};
use vstd::prelude::*;

verus! {

/// The cycles in one frame.
pub const FRAME_CYCLES: u32 = 70_224;

/// The console: a CPU and the bus that it works on.
#[derive(Debug, PartialEq, Eq)]
pub struct Motherboard {
    pub cpu: CPU,
    pub bus: BusMut,
}

/// What one step of `cpu` does on `bus`.
#[verifier::opaque]
pub open spec fn step_on(cpu: CPU, bus: BusView) -> Step {
    cpu.next(bus.reads())
}

/// What is made of `cpu` and `bus` by steps of the CPU that go on until
/// `cycles`, with what the steps consume, has reached the cycles of a frame:
/// the CPU and the bus then, and the cycles reached. The step with which the
/// count passes the cycles of a frame is made in full. A step that ends in a
/// fault ends the frame with that fault.
pub open spec fn frame_spec(cpu: CPU, bus: BusView, cycles: int) -> (
    CPU,
    BusView,
    Result<u32, CpuError>,
)
    decreases
        (if cycles < FRAME_CYCLES {
            FRAME_CYCLES - cycles
        } else {
            0
        }),
    via frame_ends
{
    if cycles >= FRAME_CYCLES {
        (cpu, bus, Ok(#[verifier::truncate] (cycles as u32)))
    } else {
        let step = step_on(cpu, bus);
        match step.result {
            Ok(consumed) => frame_spec(
                step.cpu,
                bus.written_all(step.writes),
                cycles + consumed,
            ),
            Err(error) => (step.cpu, bus.written_all(step.writes), Err(error)),
        }
    }
}

/// A frame ends, as every step consumes cycles.
#[via_fn]
proof fn frame_ends(cpu: CPU, bus: BusView, cycles: int) {
    reveal(step_on);
    cpu.law_step_cycles(bus.reads());
}

/// A frame that has not reached its cycles goes on with one step: with what
/// the step makes of the CPU and the bus, and with the cycles it consumed
/// more; or it ends in the fault of the step.
proof fn lemma_frame_step(
    cpu: CPU,
    bus: BusMut,
    cpu_after: CPU,
    bus_after: BusMut,
    result: Result<u32, CpuError>,
    cycles: int,
)
    requires
        cycles < FRAME_CYCLES,
        cpu.stepped(bus, cpu_after, bus_after, result),
    ensures
        frame_spec(cpu, bus@, cycles) == match result {
            Ok(consumed) => frame_spec(cpu_after, bus_after@, cycles + consumed),
            Err(error) => (cpu_after, bus_after@, Err(error)),
        },
{
    reveal(step_on);
    assert(reads(bus) =~= bus@.reads());
    lemma_applied_view(bus, cpu.next(reads(bus)).writes, bus_after);
}

impl Motherboard {
    /// The bus is in use.
    pub open spec fn wf(&self) -> bool {
        self.bus.inv()
    }

    /// A console at power-on, without a cartridge.
    pub fn new() -> (board: Motherboard)
        ensures
            board.cpu == CPU::power_on(),
            board.bus@ == (BusView {
                memory: Seq::new(0x10000, |i: int| 0u8),
                cartridge: None,
            }),
            board.wf(),
    {
        Motherboard { cpu: CPU::new(), bus: BusMut::new() }
    }

    /// Whether the console can be run.
    pub fn is_valid(&self) -> (valid: bool)
        ensures
            valid == self.wf(),
    {
        self.bus.is_valid()
    }

    /// Inserts a cartridge, in place of the one that was there.
    pub fn insert_cartridge(&mut self, cartridge: Cartridge)
        requires
            old(self).wf(),
            cartridge.wf(),
        ensures
            final(self).cpu == old(self).cpu,
            final(self).bus@ == (BusView { cartridge: Some(cartridge@), ..old(self).bus@ }),
            final(self).wf(),
    {
        self.bus.insert_cartridge(cartridge);
    }

    /// Runs the CPU for one frame: step after step, until the cycles
    /// consumed have reached the cycles of a frame. Returns the cycles
    /// consumed, or the fault of the step that ended in one.
    pub fn run_frame(&mut self) -> (result: Result<u32, CpuError>)
        requires
            old(self).wf(),
        ensures
            final(self).wf(),
            (final(self).cpu, final(self).bus@, result) == frame_spec(
                old(self).cpu,
                old(self).bus@,
                0,
            ),
            result matches Ok(cycles) ==> FRAME_CYCLES <= cycles < FRAME_CYCLES + MAX_STEP_CYCLES,
    {
        let mut cycles: u32 = 0;
        while cycles < FRAME_CYCLES
            invariant
                self.bus.inv(),
                cycles < FRAME_CYCLES + MAX_STEP_CYCLES,
                frame_spec(old(self).cpu, old(self).bus@, 0) == frame_spec(
                    self.cpu,
                    self.bus@,
                    cycles as int,
                ),
            decreases FRAME_CYCLES + MAX_STEP_CYCLES - cycles,
        {
            let ghost cpu = self.cpu;
            let ghost bus = self.bus;
            let stepped = self.cpu.step(&mut self.bus);
            proof {
                lemma_frame_step(cpu, bus, self.cpu, self.bus, stepped, cycles as int);
            }
            match stepped {
                Ok(consumed) => {
                    cycles += consumed;
                },
                Err(error) => {
                    return Err(error);
                },
            }
        }
        Ok(cycles)
    }
}

impl Bus for Motherboard {
    open spec fn inv(&self) -> bool {
        self.bus.inv()
    }

    open spec fn peek(&self, address: u16) -> u8 {
        self.bus.peek(address)
    }

    open spec fn poked(&self, address: u16, value: u8, after: Self) -> bool {
        after.cpu == self.cpu && self.bus.poked(address, value, after.bus)
    }

    fn read8(&mut self, address: u16) -> (value: u8) {
        self.bus.read8(address)
    }

    fn write8(&mut self, address: u16, value: u8) {
        self.bus.write8(address, value);
    }
}

} // verus!
