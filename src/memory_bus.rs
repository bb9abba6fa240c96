//! The processor's address space: RAM, the picture unit's registers and cartridge ROM.
//!
//! Accesses outside every mapped window read as zero and writes there are dropped; so are
//! writes to ROM and to the read-only status register, and reads of write-only registers
//! give zero.

use vstd::prelude::*;
use crate::ppu::{
    addr_write, ctrl_write, data_read, data_write, mask_write, oam_addr_write, oam_after_dma,
    oam_data_write, oam_read, scroll_write, status_read, PpuView, PPU,
};
use crate::word;

verus! {

pub const RAM_START: u16 = 0x0000;
pub const RAM_END_MIRRORED: u16 = 0x1fff;
pub const RAM_ADDR_MASK: u16 = 0b0000_0111_1111_1111;
pub const PPU_REG_START: u16 = 0x2000;
pub const PPU_REG_END_MIRRORED: u16 = 0x3fff;
pub const PPU_REG_ADDR_MASK: u16 = 0b0010_0000_0000_0111;
pub const OAM_DMA: u16 = 0x4014;
pub const PRG_ROM_START: u16 = 0x8000;
pub const PRG_ROM_END_MIRRORED: u16 = 0xffff;

/// Bytes of processor RAM.
pub const RAM_SIZE: usize = 0x800;

/// The interrupt lines the bus can report to the processor.
#[derive(Debug, Clone, Copy, PartialEq, Eq, Structural)]
pub enum InterruptType {
    NonMaskable,
    Request,
}

/// The bus's state as plain values.
pub struct BusView {
    pub ram: Seq<u8>,
    pub ppu: PpuView,
}

impl BusView {
    pub open spec fn wf(self) -> bool {
        self.ram.len() == 0x800 && self.ppu.wf()
    }
}

pub open spec fn with_ppu(b: BusView, ppu: PpuView) -> BusView {
    BusView { ppu, ..b }
}

/// A byte of program ROM at a CPU address from 0x8000 on; a single 16KB bank repeats in
/// the upper half; zero past the end.
pub open spec fn prg_byte(prg: Seq<u8>, addr: u16) -> u8 {
    let off = addr - 0x8000;
    let off = if prg.len() == 0x4000 { off % 0x4000 } else { off };
    if off < prg.len() { prg[off as int] } else { 0 }
}

/// A read: the value it gives and the state after it.
#[verifier::opaque]
pub open spec fn bus_read(b: BusView, addr: u16) -> (u8, BusView) {
    if addr < 0x2000 {
        (b.ram[(addr % 0x800) as int], b)
    } else if addr < 0x4000 {
        let reg = addr % 8;
        if reg == 2 {
            (status_read(b.ppu).0, with_ppu(b, status_read(b.ppu).1))
        } else if reg == 4 {
            (oam_read(b.ppu), b)
        } else if reg == 7 {
            (data_read(b.ppu).0, with_ppu(b, data_read(b.ppu).1))
        } else {
            (0, b)
        }
    } else if addr >= 0x8000 {
        (prg_byte(b.ppu.prg, addr), b)
    } else {
        (0, b)
    }
}

/// The address after `a`, wrapping at the top of the address space.
pub open spec fn next_addr(a: u16) -> u16 {
    if a == 0xffff { 0 } else { (a + 1) as u16 }
}

/// A little-endian word read: low byte, then high byte (the address wraps at the top).
pub open spec fn bus_read16(b: BusView, addr: u16) -> (u16, BusView) {
    let (lo, b1) = bus_read(b, addr);
    let (hi, b2) = bus_read(b1, next_addr(addr));
    (word(hi, lo), b2)
}

/// The first `n` bytes a transfer reads from `base` on, and the state after those reads.
pub open spec fn dma_fetch(b: BusView, base: u16, n: nat) -> (Seq<u8>, BusView)
    decreases n,
{
    if n == 0 {
        (Seq::empty(), b)
    } else {
        let (s, b1) = dma_fetch(b, base, (n - 1) as nat);
        let (x, b2) = bus_read(b1, (base + n - 1) as u16);
        (s.push(x), b2)
    }
}

proof fn lemma_dma_fetch_len(b: BusView, base: u16, n: nat)
    ensures
        dma_fetch(b, base, n).0.len() == n,
    decreases n,
{
    if n > 0 {
        lemma_dma_fetch_len(b, base, (n - 1) as nat);
    }
}

/// A write: the state after it.
#[verifier::opaque]
pub open spec fn bus_write(b: BusView, addr: u16, val: u8) -> BusView {
    if addr < 0x2000 {
        BusView { ram: b.ram.update((addr % 0x800) as int, val), ..b }
    } else if addr < 0x4000 {
        let reg = addr % 8;
        if reg == 0 {
            with_ppu(b, ctrl_write(b.ppu, val))
        } else if reg == 1 {
            with_ppu(b, mask_write(b.ppu, val))
        } else if reg == 3 {
            with_ppu(b, oam_addr_write(b.ppu, val))
        } else if reg == 4 {
            with_ppu(b, oam_data_write(b.ppu, val))
        } else if reg == 5 {
            with_ppu(b, scroll_write(b.ppu, val))
        } else if reg == 6 {
            with_ppu(b, addr_write(b.ppu, val))
        } else if reg == 7 {
            with_ppu(b, data_write(b.ppu, val))
        } else {
            b
        }
    } else if addr == 0x4014 {
        let (data, b1) = dma_fetch(b, (val as int * 256) as u16, 256);
        with_ppu(b1, PpuView { oam: oam_after_dma(b1.ppu, data), ..b1.ppu })
    } else {
        b
    }
}

/// A write to RAM is read back.
pub proof fn lemma_ram_write_read(b: BusView, a: u16, v: u8)
    requires
        b.wf(),
        a < 0x2000,
    ensures
        bus_read(bus_write(b, a, v), a).0 == v,
        bus_write(b, a, v).wf(),
{
    reveal(bus_read);
    reveal(bus_write);
}

/// A write to RAM leaves the other RAM cells as they were.
pub proof fn lemma_ram_write_other(b: BusView, a: u16, c: u16, v: u8)
    requires
        b.wf(),
        a < 0x2000,
        c < 0x2000,
        a % 0x800 != c % 0x800,
    ensures
        bus_read(bus_write(b, a, v), c).0 == bus_read(b, c).0,
{
    reveal(bus_read);
    reveal(bus_write);
}

/// A read leaves RAM as it was and the bus well formed.
pub proof fn lemma_read_keeps_ram(b: BusView, a: u16)
    requires
        b.wf(),
    ensures
        bus_read(b, a).1.ram == b.ram,
        bus_read(b, a).1.wf(),
{
    reveal(bus_read);
}

/// The address space.
#[derive(Debug)]
pub struct MemoryBus {
    pub cpu_ram: Vec<u8>,
    pub ppu: PPU,
}

impl View for MemoryBus {
    type V = BusView;

    open spec fn view(&self) -> BusView {
        BusView { ram: self.cpu_ram@, ppu: self.ppu@ }
    }
}

impl MemoryBus {
    pub fn new(ppu: PPU) -> (r: MemoryBus)
        requires
            ppu@.wf(),
        ensures
            r@.wf(),
            r@.ram == Seq::new(0x800, |i: int| 0u8),
            r@.ppu == ppu@,
    {
        let mut cpu_ram: Vec<u8> = Vec::with_capacity(RAM_SIZE);
        let mut i: usize = 0;
        while i < RAM_SIZE
            invariant
                i <= RAM_SIZE,
                cpu_ram@ == Seq::new(i as nat, |k: int| 0u8),
            decreases RAM_SIZE - i,
        {
            cpu_ram.push(0);
            i = i + 1;
            assert(cpu_ram@ =~= Seq::new(i as nat, |k: int| 0u8));
        }
        MemoryBus { cpu_ram, ppu }
    }

    fn prg_read(&self, addr: u16) -> (r: u8)
        requires
            addr >= 0x8000,
        ensures
            r == prg_byte(self@.ppu.prg, addr),
    {
        let mut prg_addr = (addr - PRG_ROM_START) as usize;
        if self.ppu.cart.prg_rom.len() == 0x4000 {
            prg_addr = prg_addr % 0x4000;
        }
        if prg_addr < self.ppu.cart.prg_rom.len() {
            self.ppu.cart.prg_rom[prg_addr]
        } else {
            0
        }
    }

    /// Reads a byte; reads of the status and data registers change the picture unit's state.
    pub fn read(&mut self, addr: u16) -> (r: u8)
        requires
            old(self)@.wf(),
        ensures
            (r, final(self)@) == bus_read(old(self)@, addr),
            final(self)@.wf(),
    {
        reveal(bus_read);
        reveal(bus_write);
        if addr <= RAM_END_MIRRORED {
            assert(addr & 0x7ff == addr % 0x800) by (bit_vector);
            self.cpu_ram[(addr & RAM_ADDR_MASK) as usize]
        } else if addr <= PPU_REG_END_MIRRORED {
            assert(addr & 0x2007 == 0x2000 + addr % 8) by (bit_vector)
                requires
                    0x2000 <= addr < 0x4000,
            ;
            match addr & PPU_REG_ADDR_MASK {
                0x2002 => self.ppu.read_status(),
                0x2004 => self.ppu.read_oam_data(),
                0x2007 => self.ppu.read_data(),
                _ => 0,
            }
        } else if addr >= PRG_ROM_START {
            self.prg_read(addr)
        } else {
            0
        }
    }

    /// The value `read` would give, without its side effects.
    pub fn dbg_read(&self, addr: u16) -> (r: u8)
        requires
            self@.wf(),
        ensures
            r == bus_read(self@, addr).0,
    {
        reveal(bus_read);
        reveal(bus_write);
        if addr <= RAM_END_MIRRORED {
            assert(addr & 0x7ff == addr % 0x800) by (bit_vector);
            self.cpu_ram[(addr & RAM_ADDR_MASK) as usize]
        } else if addr <= PPU_REG_END_MIRRORED {
            assert(addr & 0x2007 == 0x2000 + addr % 8) by (bit_vector)
                requires
                    0x2000 <= addr < 0x4000,
            ;
            match addr & PPU_REG_ADDR_MASK {
                0x2002 => self.ppu.regs.stat.bits(),
                0x2004 => self.ppu.read_oam_data(),
                0x2007 => self.ppu.peek_data(),
                _ => 0,
            }
        } else if addr >= PRG_ROM_START {
            self.prg_read(addr)
        } else {
            0
        }
    }

    /// The word `read_16bit` would give, without side effects.
    pub fn dbg_read_16bit(&self, addr: u16) -> (r: u16)
        requires
            self@.wf(),
        ensures
            r == word(bus_read(self@, next_addr(addr)).0, bus_read(self@, addr).0),
    {
        let lo = self.dbg_read(addr);
        let hi = self.dbg_read(addr.wrapping_add(1));
        crate::make_u16(hi, lo)
    }

    /// Reads a little-endian word: the low byte at `addr`, the high byte after it.
    pub fn read_16bit(&mut self, addr: u16) -> (r: u16)
        requires
            old(self)@.wf(),
        ensures
            (r, final(self)@) == bus_read16(old(self)@, addr),
            final(self)@.wf(),
    {
        let lo = self.read(addr);
        let hi = self.read(addr.wrapping_add(1));
        crate::make_u16(hi, lo)
    }

    /// Writes a byte; a write to 0x4014 copies the page it names into sprite memory.
    pub fn write(&mut self, addr: u16, val: u8)
        requires
            old(self)@.wf(),
        ensures
            final(self)@ == bus_write(old(self)@, addr, val),
            final(self)@.wf(),
    {
        reveal(bus_read);
        reveal(bus_write);
        if addr <= RAM_END_MIRRORED {
            assert(addr & 0x7ff == addr % 0x800) by (bit_vector);
            self.cpu_ram.set((addr & RAM_ADDR_MASK) as usize, val);
        } else if addr <= PPU_REG_END_MIRRORED {
            self.write_ppu_register(addr, val);
        } else if addr == OAM_DMA {
            self.oam_dma(val);
        }
    }

    fn write_ppu_register(&mut self, addr: u16, val: u8)
        requires
            old(self)@.wf(),
            0x2000 <= addr < 0x4000,
        ensures
            final(self)@ == bus_write(old(self)@, addr, val),
            final(self)@.wf(),
    {
        reveal(bus_read);
        reveal(bus_write);
        assert(addr & 0x2007 == 0x2000 + addr % 8) by (bit_vector)
            requires
                0x2000 <= addr < 0x4000,
        ;
        match addr & PPU_REG_ADDR_MASK {
            0x2000 => self.ppu.write_to_ctrl(val),
            0x2001 => self.ppu.write_to_mask(val),
            0x2003 => self.ppu.write_to_oam_addr(val),
            0x2004 => self.ppu.write_to_oam_data(val),
            0x2005 => self.ppu.write_to_scrl(val),
            0x2006 => self.ppu.write_to_ppu_addr(val),
            0x2007 => self.ppu.write_to_data(val),
            _ => {},
        }
    }

    /// Copies page `val` of the address space into sprite memory, one bus read per byte.
    fn oam_dma(&mut self, val: u8)
        requires
            old(self)@.wf(),
        ensures
            final(self)@ == bus_write(old(self)@, OAM_DMA, val),
            final(self)@.wf(),
    {
        reveal(bus_read);
        reveal(bus_write);
        let hi = (val as u16) * 256;
        let mut buffer: Vec<u8> = Vec::with_capacity(256);
        let mut i: u16 = 0;
        while i < 256
            invariant
                i <= 256,
                hi == val as int * 256,
                self@.wf(),
                (buffer@, self@) == dma_fetch(old(self)@, hi, i as nat),
                buffer@.len() == i,
            decreases 256 - i,
        {
            proof {
                lemma_dma_fetch_len(old(self)@, hi, (i + 1) as nat);
            }
            let x = self.read(hi + i);
            buffer.push(x);
            i = i + 1;
        }
        self.ppu.write_oam_dma(&buffer);
    }

    pub fn tick_ppu(&mut self, cycles: usize)
        requires
            old(self)@.wf(),
            cycles <= (usize::MAX - 341) / 3,
        ensures
            final(self)@ == with_ppu(old(self)@, crate::ppu::advance(old(self)@.ppu, (cycles * 3) as nat)),
            final(self)@.wf(),
    {
        // the picture unit's clock runs three times as fast as the processor's
        self.ppu.tick(cycles * 3);
    }

    /// Advances the picture unit by `dots` dots of its own clock.
    pub fn tick_ppu_dots(&mut self, dots: usize)
        requires
            old(self)@.wf(),
            dots <= usize::MAX - 341,
        ensures
            final(self)@ == with_ppu(old(self)@, crate::ppu::advance(old(self)@.ppu, dots as nat)),
            final(self)@.wf(),
    {
        self.ppu.tick(dots);
    }

    /// Takes the pending interrupt request away once the processor has serviced it.
    pub fn acknowledge_interrupt(&mut self)
        ensures
            final(self)@ == with_ppu(old(self)@, PpuView { interrupt: None, ..old(self)@.ppu }),
    {
        self.ppu.interrupt = None;
    }

    /// Draws the background into `target`.
    pub fn render(&self, target: &mut Vec<u8>)
        requires
            self@.wf(),
            old(target)@.len() == 256 * 240,
        ensures
            final(target)@ == Seq::new(256 * 240, |i: int| crate::ppu::pixel_spec(self@.ppu, i)),
    {
        self.ppu.draw_to_buffer(target);
    }

    pub fn poll_interrupt(&self) -> (r: Option<InterruptType>)
        ensures
            r == self@.ppu.interrupt,
    {
        self.ppu.interrupt
    }

    pub fn get_ppu_cycles(&self) -> (r: usize)
        ensures
            r == self@.ppu.cycle,
    {
        self.ppu.cycle_count
    }

    pub fn get_ppu_scanline(&self) -> (r: u16)
        ensures
            r == self@.ppu.scanline,
    {
        self.ppu.scanline
    }
}

} // verus!
