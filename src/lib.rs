//! An emulator of the 6502-family processor and picture unit of a classic console.

pub mod instructions;
pub mod memory_bus;
pub mod cartridge;
pub mod cpu;
pub mod ppu;
pub mod ppu_registers;
pub mod renderer;

use vstd::prelude::*;
use crate::cartridge::{format_error, CartridgeROM, FormatError};
use crate::cpu::{cpu_read16, run_once_spec, run_spec, CPU, CpuView, FRAME_CYCLES, RESET_VECTOR};
use crate::memory_bus::MemoryBus;
use crate::ppu::PPU;

verus! {

/// Width of the picture in pixels.
pub const WIDTH: usize = 256;

/// Height of the picture in pixels.
pub const HEIGHT: usize = 240;

/// The 16-bit word whose high byte is `hi` and low byte is `lo`.
pub open spec fn word(hi: u8, lo: u8) -> u16 {
    (hi as int * 256 + lo as int) as u16
}

/// Joins two bytes into a little-endian word's value.
pub fn make_u16(hi: u8, lo: u8) -> (r: u16)
    ensures
        r == word(hi, lo),
{
    let r = ((hi as u16) << 8u16) | (lo as u16);
    assert(((hi as u16) << 8u16) | (lo as u16) == (hi as u16) * 256 + (lo as u16)) by (bit_vector);
    r
}

/// The console's buttons.
#[derive(Debug, Clone, Copy, PartialEq, Eq, Structural)]
pub enum InputType {
    A,
    B,
    Select,
    Start,
    Up,
    Down,
    Left,
    Right,
}

/// The whole console: processor, bus, picture unit and cartridge.
#[derive(Debug)]
pub struct NESSystem {
    pub cpu: CPU,
}

impl NESSystem {
    /// Loads a cartridge image, builds the machine around it and resets the processor.
    pub fn new(raw_bytes: Vec<u8>) -> (r: Result<NESSystem, FormatError>)
        ensures
            r is Err <==> format_error(raw_bytes@) is Some,
            r is Err ==> Some(r->Err_0) == format_error(raw_bytes@),
            r is Ok ==> r->Ok_0.cpu@.bus.wf(),
            r is Ok ==> r->Ok_0.cpu@.bus.ppu.prg == raw_bytes@.subrange(
                crate::cartridge::prg_start(raw_bytes@),
                crate::cartridge::chr_start(raw_bytes@),
            ),
            r is Ok ==> r->Ok_0.cpu@.sp == 0xfd && r->Ok_0.cpu@.p == 0x24 && r->Ok_0.cpu@.cycles
                == 7,
            r is Ok ==> r->Ok_0.cpu@.pc == cpu_read16(
                CpuView { pc: 0, ..r->Ok_0.cpu@ },
                RESET_VECTOR,
            ).0,
    {
        let cart = match CartridgeROM::new(raw_bytes) {
            Ok(c) => c,
            Err(e) => {
                return Err(e);
            },
        };
        let mem_bus = MemoryBus::new(PPU::new(cart));
        let mut cpu = CPU::new_program(mem_bus);
        proof {
            reveal(crate::memory_bus::bus_read);
        }
        cpu.reset();
        Ok(NESSystem { cpu })
    }

    /// Draws the current background into `target`, one palette index per pixel.
    pub fn render(&self, target: &mut Vec<u8>)
        requires
            self.cpu@.bus.wf(),
            old(target)@.len() == WIDTH * HEIGHT,
        ensures
            final(target)@ == Seq::new(256 * 240, |i: int| crate::ppu::pixel_spec(self.cpu@.bus.ppu, i)),
    {
        self.cpu.memory.render(target);
    }

    /// One machine step.
    pub fn tick_once(&mut self)
        requires
            old(self).cpu@.bus.wf(),
            old(self).cpu.cycle_count + 256 <= usize::MAX,
        ensures
            final(self).cpu@ == run_once_spec(old(self).cpu@),
            final(self).cpu@.bus.wf(),
    {
        self.cpu.run_once();
    }

    /// `count` machine steps.
    pub fn tick_n(&mut self, count: usize)
        requires
            old(self).cpu@.bus.wf(),
            old(self).cpu.cycle_count + 256 * (count + 1) <= usize::MAX,
        ensures
            final(self).cpu@ == run_spec(old(self).cpu@, count as nat),
            final(self).cpu@.bus.wf(),
    {
        self.cpu.run_count(count);
    }

    /// Runs machine steps until at least one frame's worth of cycles has passed.
    pub fn tick_one_frame(&mut self)
        requires
            old(self).cpu@.bus.wf(),
            old(self).cpu.cycle_count + FRAME_CYCLES + 256 <= usize::MAX,
        ensures
            exists|n: nat|
                final(self).cpu@ == run_spec(old(self).cpu@, n) && forall|m: nat|
                    m < n ==> #[trigger] run_spec(old(self).cpu@, m).cycles < old(self).cpu.cycle_count
                        + FRAME_CYCLES,
            old(self).cpu.cycle_count + FRAME_CYCLES <= final(self).cpu.cycle_count,
            final(self).cpu.cycle_count < old(self).cpu.cycle_count + FRAME_CYCLES + 256,
            final(self).cpu@.bus.wf(),
    {
        let starting_cycles = self.cpu.cycle_count;
        let ghost mut n: nat = 0;
        while self.cpu.cycle_count - starting_cycles < FRAME_CYCLES
            invariant
                self.cpu@.bus.wf(),
                starting_cycles <= self.cpu.cycle_count < starting_cycles + FRAME_CYCLES + 256,
                starting_cycles + FRAME_CYCLES + 256 <= usize::MAX,
                self.cpu@ == run_spec(old(self).cpu@, n),
                old(self).cpu.cycle_count == starting_cycles,
                forall|m: nat|
                    m < n ==> #[trigger] run_spec(old(self).cpu@, m).cycles < starting_cycles
                        + FRAME_CYCLES,
            decreases starting_cycles + FRAME_CYCLES + 256 - self.cpu.cycle_count,
        {
            self.cpu.run_once();
            proof {
                lemma_run_spec_step(old(self).cpu@, n);
                n = n + 1;
            }
        }
        assert(forall|m: nat|
            m < n ==> #[trigger] run_spec(old(self).cpu@, m).cycles < starting_cycles + FRAME_CYCLES);
    }
}

/// One more step after `n` steps is `n + 1` steps.
proof fn lemma_run_spec_step(s: CpuView, n: nat)
    ensures
        run_spec(s, n + 1) == run_once_spec(run_spec(s, n)),
    decreases n,
{
    if n > 0 {
        lemma_run_spec_step(run_once_spec(s), (n - 1) as nat);
    } else {
        reveal_with_fuel(run_spec, 2);
    }
}

} // verus!
