//! The picture unit: video memory, register protocol and dot-clock timing.

use vstd::prelude::*;
use crate::cartridge::CartridgeROM;
use crate::memory_bus::InterruptType;
use crate::ppu_registers::{ControlFlags, MaskFlags, PPUAddressRegister, PPUScrollRegister, Registers, StatusFlags};

verus! {

/// How the four logical nametables map onto video memory.
#[derive(Debug, Clone, Copy, PartialEq, Eq, Structural)]
pub enum Mirroring {
    Horizontal,
    Vertical,
    FourScreen,
}

/// Bytes of nametable memory: room for four tables, of which two are used unless four-screen.
pub const VRAM_SIZE: usize = 0x1000;

/// Bytes of the palette table.
pub const PALETTE_SIZE: usize = 32;

/// Bytes of sprite attribute memory.
pub const OAM_SIZE: usize = 256;

/// Dots in one scanline.
pub const SCANLINE_DOTS: usize = 341;

/// The scanline at which vertical blank starts.
pub const VBLANK_SCANLINE: u16 = 241;

/// Scanlines in one frame.
pub const FRAME_SCANLINES: u16 = 262;

/// The picture unit's state as plain values.
pub struct PpuView {
    pub palette: Seq<u8>,
    pub vram: Seq<u8>,
    pub oam: Seq<u8>,
    pub chr: Seq<u8>,
    pub prg: Seq<u8>,
    pub mirroring: Mirroring,
    pub regs: Registers,
    pub data_buf: u8,
    pub cycle: usize,
    pub scanline: u16,
    pub interrupt: Option<InterruptType>,
}

/// The index into nametable memory that a nametable address (0x2000..0x3EFF) folds to.
pub open spec fn mirror_spec(m: Mirroring, addr: u16) -> u16 {
    let idx = ((addr - 0x2000) % 0x1000) as u16;
    let table = idx / 0x400;
    match m {
        Mirroring::Vertical => if table == 2 || table == 3 { (idx - 0x800) as u16 } else { idx },
        Mirroring::Horizontal => if table == 1 || table == 2 {
            (idx - 0x400) as u16
        } else if table == 3 {
            (idx - 0x800) as u16
        } else {
            idx
        },
        Mirroring::FourScreen => idx,
    }
}

/// The palette entry an address from 0x3F00 on selects; the backdrop entries of the sprite
/// palettes fold onto those of the background palettes.
pub open spec fn palette_index(addr: u16) -> int {
    let i = addr % 32;
    if i == 0x10 || i == 0x14 || i == 0x18 || i == 0x1c { i - 0x10 } else { i as int }
}

/// A byte of tile data, zero past its end.
pub open spec fn chr_byte(chr: Seq<u8>, addr: u16) -> u8 {
    if (addr as int) < chr.len() { chr[addr as int] } else { 0 }
}

pub open spec fn with_regs(v: PpuView, regs: Registers) -> PpuView {
    PpuView { regs, ..v }
}

pub open spec fn with_cycle(v: PpuView, cycle: usize) -> PpuView {
    PpuView { cycle, ..v }
}

/// The state after the dot counter has completed a scanline.
pub open spec fn next_line(v: PpuView) -> PpuView {
    let s = (v.scanline + 1) as u16;
    let at_vblank = PpuView {
        scanline: s,
        regs: if s == 241 {
            Registers { stat: StatusFlags { bits: (v.regs.stat.bits | 0x80) & 0xbf }, ..v.regs }
        } else {
            v.regs
        },
        interrupt: if s == 241 && v.regs.ctrl.nmi_enabled() {
            Some(InterruptType::NonMaskable)
        } else {
            v.interrupt
        },
        ..v
    };
    if s >= 262 {
        PpuView {
            scanline: 0,
            interrupt: None,
            regs: Registers {
                stat: StatusFlags { bits: at_vblank.regs.stat.bits & 0x3f },
                ..at_vblank.regs
            },
            ..at_vblank
        }
    } else {
        at_vblank
    }
}

/// The state after `dots` more dots.
pub open spec fn advance(v: PpuView, dots: nat) -> PpuView
    decreases v.cycle + dots,
{
    if v.cycle + dots < 341 {
        with_cycle(v, (v.cycle + dots) as usize)
    } else {
        advance(next_line(with_cycle(v, 0)), (v.cycle + dots - 341) as nat)
    }
}

/// Whether a frame ends within the next `dots` dots.
pub open spec fn frame_ends(v: PpuView, dots: nat) -> bool
    decreases v.cycle + dots,
{
    if v.cycle + dots < 341 {
        false
    } else {
        v.scanline + 1 >= 262 || frame_ends(
            next_line(with_cycle(v, 0)),
            (v.cycle + dots - 341) as nat,
        )
    }
}

/// A read of the status register: its value; vertical blank and both write latches are reset.
pub open spec fn status_read(v: PpuView) -> (u8, PpuView) {
    (
        v.regs.stat.bits,
        with_regs(
            v,
            Registers {
                stat: StatusFlags { bits: v.regs.stat.bits & 0x7f },
                ppu_addr: PPUAddressRegister { write_to_hi_ptr: true, ..v.regs.ppu_addr },
                scrl: PPUScrollRegister { write_to_x: true, ..v.regs.scrl },
                ..v.regs
            },
        ),
    )
}

/// The state with the VRAM address advanced past one data access.
pub open spec fn after_data_access(v: PpuView) -> PpuView {
    with_regs(
        v,
        Registers {
            ppu_addr: v.regs.ppu_addr.incremented(v.regs.ctrl.increment_spec()),
            ..v.regs
        },
    )
}

/// A read of the data register: tile and nametable reads return the byte buffered by the
/// previous read and buffer the addressed one; palette reads return the entry at once.
pub open spec fn data_read(v: PpuView) -> (u8, PpuView) {
    let addr = v.regs.ppu_addr.addr();
    let v1 = after_data_access(v);
    if addr < 0x2000 {
        (v.data_buf, PpuView { data_buf: chr_byte(v.chr, addr), ..v1 })
    } else if addr < 0x3f00 {
        (v.data_buf, PpuView { data_buf: v.vram[mirror_spec(v.mirroring, addr) as int], ..v1 })
    } else {
        (v.palette[palette_index(addr)], v1)
    }
}

/// A write to the data register: tile memory is read-only, nametables and palette take it.
pub open spec fn data_write(v: PpuView, val: u8) -> PpuView {
    let addr = v.regs.ppu_addr.addr();
    let v1 = after_data_access(v);
    if addr < 0x2000 {
        v1
    } else if addr < 0x3f00 {
        PpuView { vram: v.vram.update(mirror_spec(v.mirroring, addr) as int, val), ..v1 }
    } else {
        PpuView { palette: v.palette.update(palette_index(addr), val), ..v1 }
    }
}

/// A write to the control register; turning the interrupt on during vertical blank raises it.
pub open spec fn ctrl_write(v: PpuView, val: u8) -> PpuView {
    PpuView {
        regs: Registers { ctrl: ControlFlags { bits: val }, ..v.regs },
        interrupt: if !v.regs.ctrl.nmi_enabled() && val & 0x80 != 0 && v.regs.stat.vblank() {
            Some(InterruptType::NonMaskable)
        } else {
            v.interrupt
        },
        ..v
    }
}

pub open spec fn mask_write(v: PpuView, val: u8) -> PpuView {
    with_regs(v, Registers { mask: MaskFlags { bits: val }, ..v.regs })
}

pub open spec fn oam_addr_write(v: PpuView, val: u8) -> PpuView {
    with_regs(v, Registers { oam_addr: val, ..v.regs })
}

pub open spec fn oam_data_write(v: PpuView, val: u8) -> PpuView {
    PpuView {
        oam: v.oam.update(v.regs.oam_addr as int, val),
        regs: Registers { oam_addr: ((v.regs.oam_addr + 1) % 256) as u8, ..v.regs },
        ..v
    }
}

/// A write to the scroll register; it flips the latch it shares with the address register.
pub open spec fn scroll_write(v: PpuView, val: u8) -> PpuView {
    with_regs(
        v,
        Registers {
            scrl: v.regs.scrl.written(val),
            ppu_addr: v.regs.ppu_addr.toggled(),
            ..v.regs
        },
    )
}

/// A write to the address register; it flips the latch it shares with the scroll register.
pub open spec fn addr_write(v: PpuView, val: u8) -> PpuView {
    with_regs(
        v,
        Registers {
            ppu_addr: v.regs.ppu_addr.written(val),
            scrl: v.regs.scrl.toggled(),
            ..v.regs
        },
    )
}

/// Sprite memory after a 256-byte transfer that starts at the current OAM address.
pub open spec fn oam_after_dma(v: PpuView, data: Seq<u8>) -> Seq<u8> {
    Seq::new(256, |j: int| data[(j - v.regs.oam_addr as int + 256) % 256])
}

/// A read of the OAM data register: the byte of sprite memory the OAM address points at.
pub open spec fn oam_read(v: PpuView) -> u8 {
    v.oam[v.regs.oam_addr as int]
}

/// A byte of tile data at an offset, zero past its end.
pub open spec fn chr_at(chr: Seq<u8>, off: int) -> u8 {
    if 0 <= off < chr.len() { chr[off] } else { 0 }
}

/// The palette entry of background pixel `i` (row-major, 256 per row): its tile's two
/// bitplanes give a colour number, the attribute byte of its 4x4-tile block picks the palette.
pub open spec fn pixel_spec(v: PpuView, i: int) -> u8 {
    let px = i % 256;
    let py = i / 256;
    let tx = px / 8;
    let ty = py / 8;
    let pattern = v.vram[ty * 32 + tx];
    let bank: int = if v.regs.ctrl.bits & 0x10 != 0 { 0x1000 } else { 0 };
    let off = bank + pattern * 16 + py % 8;
    let hi = chr_at(v.chr, off);
    let lo = chr_at(v.chr, off + 8);
    let bit = (7 - px % 8) as u8;
    let color = ((hi >> bit) & 1) * 2 + ((lo >> bit) & 1);
    let attr = v.vram[960 + tx / 4 + 8 * (ty / 4)];
    let shift = (((tx % 4) / 2) * 2 + ((ty % 4) / 2) * 4) as u8;
    let pal = (attr >> shift) & 3;
    if color == 0 { v.palette[0] } else { v.palette[1 + pal * 4 + color - 1] }
}

/// The picture unit.
#[derive(Debug)]
pub struct PPU {
    pub palette_table: Vec<u8>,
    pub vram: Vec<u8>,
    pub oam_data: Vec<u8>,
    pub cart: CartridgeROM,
    pub regs: Registers,
    pub internal_data_buf: u8,
    pub cycle_count: usize,
    pub scanline: u16,
    pub interrupt: Option<InterruptType>,
}

impl View for PPU {
    type V = PpuView;

    open spec fn view(&self) -> PpuView {
        PpuView {
            palette: self.palette_table@,
            vram: self.vram@,
            oam: self.oam_data@,
            chr: self.cart.chr_rom@,
            prg: self.cart.prg_rom@,
            mirroring: self.cart.screen_mirroring,
            regs: self.regs,
            data_buf: self.internal_data_buf,
            cycle: self.cycle_count,
            scanline: self.scanline,
            interrupt: self.interrupt,
        }
    }
}

impl PpuView {
    /// Memory sizes are fixed, the address is 14 bits, the dot and scanline counters in range.
    pub open spec fn wf(self) -> bool {
        &&& self.palette.len() == 32
        &&& self.vram.len() == 0x1000
        &&& self.oam.len() == 256
        &&& self.regs.wf()
        &&& self.cycle < 341
        &&& self.scanline < 262
    }
}

/// Zero-filled vector of length `n`.
fn zeros(n: usize) -> (r: Vec<u8>)
    ensures
        r@ == Seq::new(n as nat, |i: int| 0u8),
{
    let mut r: Vec<u8> = Vec::with_capacity(n);
    let mut i: usize = 0;
    while i < n
        invariant
            i <= n,
            r@ == Seq::new(i as nat, |k: int| 0u8),
        decreases n - i,
    {
        r.push(0);
        i = i + 1;
        assert(r@ =~= Seq::new(i as nat, |k: int| 0u8));
    }
    r
}

impl PPU {
    pub fn new(cart: CartridgeROM) -> (r: PPU)
        ensures
            r@.wf(),
            r@.palette == Seq::new(32, |i: int| 0u8),
            r@.vram == Seq::new(0x1000, |i: int| 0u8),
            r@.oam == Seq::new(256, |i: int| 0u8),
            r@.chr == cart.chr_rom@,
            r@.prg == cart.prg_rom@,
            r@.mirroring == cart.screen_mirroring,
            r@.regs == Registers::initial(),
            r@.data_buf == 0,
            r@.cycle == 21,
            r@.scanline == 0,
            r@.interrupt is None,
    {
        PPU {
            palette_table: zeros(PALETTE_SIZE),
            vram: zeros(VRAM_SIZE),
            oam_data: zeros(OAM_SIZE),
            cart,
            regs: Registers::new(),
            internal_data_buf: 0,
            cycle_count: 21,
            scanline: 0,
            interrupt: None,
        }
    }

    /// Completes the current scanline; returns whether it closed the frame.
    fn next_scanline(&mut self) -> (r: bool)
        requires
            old(self)@.scanline < 262,
        ensures
            final(self)@ == next_line(old(self)@),
            r == (old(self)@.scanline + 1 >= 262),
    {
        self.scanline = self.scanline + 1;
        if self.scanline == VBLANK_SCANLINE {
            // set vertical blank, clear the sprite-zero hit
            self.regs.stat.bits = (self.regs.stat.bits | StatusFlags::VBLANK) & 0xbf;
            if self.regs.ctrl.bits & ControlFlags::VBLANK_NMI_ENABLE != 0 {
                self.interrupt = Some(InterruptType::NonMaskable);
            }
        }
        if self.scanline >= FRAME_SCANLINES {
            self.scanline = 0;
            self.interrupt = None;
            // clear vertical blank and the sprite-zero hit
            self.regs.stat.bits = self.regs.stat.bits & 0x3f;
            return true;
        }
        false
    }

    /// Advances the dot clock by `cycles` dots; returns whether a frame ended meanwhile.
    pub fn tick(&mut self, cycles: usize) -> (r: bool)
        requires
            old(self)@.wf(),
            cycles <= usize::MAX - 341,
        ensures
            final(self)@.wf(),
            final(self)@ == advance(old(self)@, cycles as nat),
            r == frame_ends(old(self)@, cycles as nat),
    {
        self.cycle_count = self.cycle_count + cycles;
        let mut done = false;
        while self.cycle_count >= SCANLINE_DOTS
            invariant
                with_cycle(self@, 0).wf(),
                advance(old(self)@, cycles as nat) == advance(with_cycle(self@, 0), self.cycle_count as nat),
                frame_ends(old(self)@, cycles as nat) == (done || frame_ends(with_cycle(self@, 0), self.cycle_count as nat)),
            decreases self.cycle_count,
        {
            self.cycle_count = self.cycle_count - SCANLINE_DOTS;
            let c = self.cycle_count;
            self.cycle_count = 0;
            let wrapped = self.next_scanline();
            self.cycle_count = c;
            if wrapped {
                done = true;
            }
        }
        done
    }

    fn chr_at(&self, off: usize) -> (r: u8)
        ensures
            r == chr_at(self@.chr, off as int),
    {
        if off < self.cart.chr_rom.len() {
            self.cart.chr_rom[off]
        } else {
            0
        }
    }

    /// The palette entry of background pixel `i`.
    pub fn pixel(&self, i: usize) -> (r: u8)
        requires
            self@.wf(),
            i < 256 * 240,
        ensures
            r == pixel_spec(self@, i as int),
    {
        let px = i % 256;
        let py = i / 256;
        let tx = px / 8;
        let ty = py / 8;
        assert(ty * 32 + tx < 960) by (nonlinear_arith)
            requires
                ty < 30,
                tx < 32,
        ;
        let pattern = self.vram[ty * 32 + tx] as usize;
        let bank: usize = if self.regs.ctrl.bits & ControlFlags::BACKGROUND_PATTERN_TABLE_ADDR != 0 {
            0x1000
        } else {
            0
        };
        let off = bank + pattern * 16 + py % 8;
        let hi = self.chr_at(off);
        let lo = self.chr_at(off + 8);
        let bit = (7 - px % 8) as u8;
        let h = (hi >> bit) & 1;
        let l = (lo >> bit) & 1;
        assert(h <= 1 && l <= 1) by (bit_vector)
            requires
                h == (hi >> bit) & 1,
                l == (lo >> bit) & 1,
        ;
        let color = h * 2 + l;
        let attr = self.vram[960 + tx / 4 + 8 * (ty / 4)];
        let shift = (((tx % 4) / 2) * 2 + ((ty % 4) / 2) * 4) as u8;
        let p = (attr >> shift) & 3;
        assert(p <= 3) by (bit_vector)
            requires
                p == (attr >> shift) & 3,
        ;
        let pal = p as usize;
        if color == 0 {
            self.palette_table[0]
        } else {
            self.palette_table[1 + pal * 4 + color as usize - 1]
        }
    }

    /// Draws the background into `target`, one palette index per pixel.
    pub fn draw_to_buffer(&self, target: &mut Vec<u8>)
        requires
            self@.wf(),
            old(target)@.len() == 256 * 240,
        ensures
            final(target)@ == Seq::new(256 * 240, |i: int| pixel_spec(self@, i)),
    {
        let mut i: usize = 0;
        while i < 256 * 240
            invariant
                self@.wf(),
                target@.len() == 256 * 240,
                i <= 256 * 240,
                forall|j: int| 0 <= j < i ==> target@[j] == pixel_spec(self@, j),
            decreases 256 * 240 - i,
        {
            let c = self.pixel(i);
            target.set(i, c);
            i = i + 1;
        }
        assert(target@ =~= Seq::new(256 * 240, |i: int| pixel_spec(self@, i)));
    }

    /// Folds a nametable address (0x2000..0x3FFF) onto an index of nametable memory.
    pub fn mirror_vram_addr(&self, addr: u16) -> (r: u16)
        requires
            0x2000 <= addr < 0x4000,
        ensures
            r == mirror_spec(self.cart.screen_mirroring, addr),
            r < 0x1000,
    {
        // 0x3000..0x3EFF repeats 0x2000..0x2EFF
        let mirrored_vram = addr & 0b10_1111_1111_1111;
        assert(addr & 0x2fff == if addr >= 0x3000 { (addr - 0x1000) as u16 } else { addr }) by (bit_vector)
            requires
                0x2000 <= addr < 0x4000,
        ;
        let vram_index = mirrored_vram - 0x2000;
        let name_table = vram_index / 0x400;
        match self.cart.screen_mirroring {
            Mirroring::Vertical => if name_table == 2 || name_table == 3 {
                vram_index - 0x800
            } else {
                vram_index
            },
            Mirroring::Horizontal => if name_table == 1 || name_table == 2 {
                vram_index - 0x400
            } else if name_table == 3 {
                vram_index - 0x800
            } else {
                vram_index
            },
            Mirroring::FourScreen => vram_index,
        }
    }

    fn increment_vram_addr(&mut self)
        requires
            old(self)@.wf(),
        ensures
            final(self)@ == after_data_access(old(self)@),
            final(self)@.wf(),
    {
        let inc = self.regs.ctrl.get_increment_val();
        self.regs.ppu_addr.increment(inc);
    }

    pub fn write_to_ppu_addr(&mut self, val: u8)
        requires
            old(self)@.wf(),
        ensures
            final(self)@ == addr_write(old(self)@, val),
            final(self)@.wf(),
    {
        self.regs.ppu_addr.write(val);
        self.regs.scrl.toggle_latch();
    }

    pub fn write_to_ctrl(&mut self, val: u8)
        requires
            old(self)@.wf(),
        ensures
            final(self)@ == ctrl_write(old(self)@, val),
            final(self)@.wf(),
    {
        let nmi_status_before = self.regs.ctrl.bits & ControlFlags::VBLANK_NMI_ENABLE != 0;
        self.regs.ctrl = ControlFlags::from_bits_truncate(val);
        let nmi_status_after = val & ControlFlags::VBLANK_NMI_ENABLE != 0;
        if !nmi_status_before && nmi_status_after && self.regs.stat.bits & StatusFlags::VBLANK != 0 {
            self.interrupt = Some(InterruptType::NonMaskable);
        }
    }

    pub fn write_to_mask(&mut self, val: u8)
        requires
            old(self)@.wf(),
        ensures
            final(self)@ == mask_write(old(self)@, val),
            final(self)@.wf(),
    {
        self.regs.mask = MaskFlags::from_bits_truncate(val);
    }

    pub fn write_to_oam_addr(&mut self, val: u8)
        requires
            old(self)@.wf(),
        ensures
            final(self)@ == oam_addr_write(old(self)@, val),
            final(self)@.wf(),
    {
        self.regs.oam_addr = val;
    }

    pub fn write_to_oam_data(&mut self, val: u8)
        requires
            old(self)@.wf(),
        ensures
            final(self)@ == oam_data_write(old(self)@, val),
            final(self)@.wf(),
    {
        self.oam_data.set(self.regs.oam_addr as usize, val);
        self.regs.oam_addr = self.regs.oam_addr.wrapping_add(1);
    }

    pub fn write_to_scrl(&mut self, val: u8)
        requires
            old(self)@.wf(),
        ensures
            final(self)@ == scroll_write(old(self)@, val),
            final(self)@.wf(),
    {
        self.regs.scrl.write(val);
        self.regs.ppu_addr.toggle_latch();
    }

    /// Writes through the VRAM address and advances it. Tile memory is read-only: a write
    /// there is dropped.
    pub fn write_to_data(&mut self, val: u8)
        requires
            old(self)@.wf(),
        ensures
            final(self)@ == data_write(old(self)@, val),
            final(self)@.wf(),
    {
        let addr = self.regs.ppu_addr.get_addr();
        proof {
            assert(addr < 0x4000) by {
                let a = self.regs.ppu_addr;
                assert(a.hi < 0x40);
            }
        }
        self.increment_vram_addr();
        if addr < 0x2000 {
        } else if addr < 0x3f00 {
            let i = self.mirror_vram_addr(addr);
            self.vram.set(i as usize, val);
        } else {
            let i = self.palette_slot(addr);
            self.palette_table.set(i, val);
        }
    }

    fn palette_slot(&self, addr: u16) -> (r: usize)
        ensures
            r == palette_index(addr),
            r < 32,
    {
        let i = addr % 32;
        if i == 0x10 || i == 0x14 || i == 0x18 || i == 0x1c {
            (i - 0x10) as usize
        } else {
            i as usize
        }
    }

    /// Copies a 256-byte page into sprite memory from the current OAM address on.
    pub fn write_oam_dma(&mut self, buffer: &Vec<u8>)
        requires
            old(self)@.wf(),
            buffer@.len() == 256,
        ensures
            final(self)@ == (PpuView { oam: oam_after_dma(old(self)@, buffer@), ..old(self)@ }),
            final(self)@.wf(),
    {
        let ghost start = self.regs.oam_addr;
        let mut i: usize = 0;
        while i < 256
            invariant
                0 <= i <= 256,
                buffer@.len() == 256,
                self.oam_data@.len() == 256,
                self.regs.oam_addr as int == (start as int + i) % 256,
                self@ == (PpuView { oam: self.oam_data@, regs: self@.regs, ..old(self)@ }),
                self.regs == (Registers { oam_addr: self.regs.oam_addr, ..old(self).regs }),
                forall|j: int| 0 <= j < 256 ==> #[trigger] self.oam_data@[j] == if (j - start + 256) % 256 < i {
                    buffer@[(j - start + 256) % 256]
                } else {
                    old(self).oam_data@[j]
                },
            decreases 256 - i,
        {
            self.oam_data.set(self.regs.oam_addr as usize, buffer[i]);
            self.regs.oam_addr = self.regs.oam_addr.wrapping_add(1);
            i = i + 1;
        }
        assert(self.oam_data@ =~= oam_after_dma(old(self)@, buffer@));
    }

    /// Reads the OAM data register. The hardware answers with the byte of sprite memory at
    /// the OAM address, and so does this; a separate latched register would always read zero.
    pub fn read_oam_data(&self) -> (r: u8)
        requires
            self@.wf(),
        ensures
            r == oam_read(self@),
    {
        self.oam_data[self.regs.oam_addr as usize]
    }

    /// The value `read_data` would give, without its side effects.
    pub fn peek_data(&self) -> (r: u8)
        requires
            self@.wf(),
        ensures
            r == data_read(self@).0,
    {
        let addr = self.regs.ppu_addr.get_addr();
        proof {
            assert(addr < 0x4000) by {
                let a = self.regs.ppu_addr;
                assert(a.hi < 0x40);
            }
        }
        if addr < 0x3f00 {
            self.internal_data_buf
        } else {
            let i = self.palette_slot(addr);
            self.palette_table[i]
        }
    }

    /// Reads the status register; clears vertical blank and resets the write latch.
    pub fn read_status(&mut self) -> (r: u8)
        requires
            old(self)@.wf(),
        ensures
            (r, final(self)@) == status_read(old(self)@),
            final(self)@.wf(),
    {
        let data = self.regs.stat.bits();
        self.regs.stat.bits = self.regs.stat.bits & 0x7f;
        self.regs.ppu_addr.reset_latch();
        self.regs.scrl.reset_latch();
        data
    }

    /// Reads through the VRAM address and advances it, with the one-read delay outside the
    /// palette.
    pub fn read_data(&mut self) -> (r: u8)
        requires
            old(self)@.wf(),
        ensures
            (r, final(self)@) == data_read(old(self)@),
            final(self)@.wf(),
    {
        let addr = self.regs.ppu_addr.get_addr();
        proof {
            assert(addr < 0x4000) by {
                let a = self.regs.ppu_addr;
                assert(a.hi < 0x40);
            }
        }
        self.increment_vram_addr();
        if addr < 0x2000 {
            let result = self.internal_data_buf;
            self.internal_data_buf = if (addr as usize) < self.cart.chr_rom.len() {
                self.cart.chr_rom[addr as usize]
            } else {
                0
            };
            result
        } else if addr < 0x3f00 {
            let result = self.internal_data_buf;
            let i = self.mirror_vram_addr(addr);
            self.internal_data_buf = self.vram[i as usize];
            result
        } else {
            let i = self.palette_slot(addr);
            self.palette_table[i]
        }
    }
}


/// `k` completed scanlines.
pub open spec fn lines(v: PpuView, k: nat) -> PpuView
    decreases k,
{
    if k == 0 { v } else { next_line(lines(v, (k - 1) as nat)) }
}

proof fn lemma_lines_shift(v: PpuView, k: nat)
    ensures
        lines(next_line(v), k) == next_line(lines(v, k)),
    decreases k,
{
    if k > 0 {
        lemma_lines_shift(v, (k - 1) as nat);
    }
}

/// From the start of a scanline, `341 * k` dots complete exactly `k` scanlines.
proof fn lemma_advance_lines(v: PpuView, k: nat)
    requires
        v.cycle == 0,
    ensures
        advance(v, 341 * k) == lines(v, k),
    decreases k,
{
    if k > 0 {
        assert(with_cycle(v, 0) == v);
        assert(341 * k - 341 == 341 * (k - 1) as nat) by (nonlinear_arith)
            requires
                k > 0,
        ;
        lemma_advance_lines(next_line(v), (k - 1) as nat);
        lemma_lines_shift(v, (k - 1) as nat);
    } else {
        assert(with_cycle(v, 0) == v);
    }
}

/// Within the first 262 scanlines of a frame started with no pending interrupt and the
/// interrupt enabled: the scanline counts up, the control register stays, and the interrupt
/// is pending exactly from scanline 241 on.
proof fn lemma_lines_in_frame(v: PpuView, k: nat)
    requires
        v.cycle == 0,
        v.scanline == 0,
        v.interrupt is None,
        v.regs.ctrl.nmi_enabled(),
        k <= 261,
    ensures
        lines(v, k).scanline == k,
        lines(v, k).cycle == 0,
        lines(v, k).regs.ctrl == v.regs.ctrl,
        k < 241 ==> lines(v, k).interrupt is None,
        k >= 241 ==> lines(v, k).interrupt == Some(InterruptType::NonMaskable),
    decreases k,
{
    if k > 0 {
        lemma_lines_in_frame(v, (k - 1) as nat);
    }
}

/// A whole frame (341 x 262 dots) from the top-left dot ends where it started, at scanline 0
/// with vertical blank clear and no pending interrupt.
pub proof fn lemma_frame_returns_to_top(v: PpuView)
    requires
        v.cycle == 0,
        v.scanline == 0,
    ensures
        advance(v, 341 * 262).scanline == 0,
        advance(v, 341 * 262).cycle == 0,
        !advance(v, 341 * 262).regs.stat.vblank(),
        advance(v, 341 * 262).interrupt is None,
{
    lemma_advance_lines(v, 262);
    lemma_lines_scanline(v, 261);
    let last = lines(v, 261);
    let b = next_line(last).regs.stat.bits;
    assert(b == ((if last.scanline + 1 == 241 {
        (last.regs.stat.bits | 0x80) & 0xbf
    } else {
        last.regs.stat.bits
    }) & 0x3f));
    let c = if last.scanline + 1 == 241 {
        (last.regs.stat.bits | 0x80) & 0xbf
    } else {
        last.regs.stat.bits
    };
    assert(c & 0x3f & 0x80 == 0) by (bit_vector);
}

proof fn lemma_lines_scanline(v: PpuView, k: nat)
    requires
        v.cycle == 0,
        v.scanline == 0,
        k <= 261,
    ensures
        lines(v, k).scanline == k,
        lines(v, k).cycle == 0,
    decreases k,
{
    if k > 0 {
        lemma_lines_scanline(v, (k - 1) as nat);
    }
}

/// With the interrupt enabled and none pending at the top of a frame, stepping whole
/// scanlines raises the interrupt exactly once: none is pending before scanline 241, it is
/// pending from there to the end of the frame, and the frame's end clears it.
pub proof fn lemma_nmi_once_per_frame(v: PpuView, k: nat)
    requires
        v.cycle == 0,
        v.scanline == 0,
        v.interrupt is None,
        v.regs.ctrl.nmi_enabled(),
        1 <= k <= 262,
    ensures
        k < 241 ==> advance(v, 341 * k).interrupt is None,
        241 <= k < 262 ==> advance(v, 341 * k).interrupt == Some(InterruptType::NonMaskable),
        k == 262 ==> advance(v, 341 * k).interrupt is None,
{
    lemma_advance_lines(v, k);
    if k < 262 {
        lemma_lines_in_frame(v, k);
    } else {
        lemma_lines_in_frame(v, 261);
    }
}

/// The state after ticks of `ks[0]`, `ks[1]`, ... dots in turn.
pub open spec fn advance_all(v: PpuView, ks: Seq<nat>) -> PpuView
    decreases ks.len(),
{
    if ks.len() == 0 {
        v
    } else {
        advance(advance_all(v, ks.drop_last()), ks.last())
    }
}

pub open spec fn sum_dots(ks: Seq<nat>) -> nat
    decreases ks.len(),
{
    if ks.len() == 0 {
        0
    } else {
        sum_dots(ks.drop_last()) + ks.last()
    }
}

/// Ticking `a` dots and then `b` dots is ticking `a + b` dots.
pub proof fn lemma_advance_add(v: PpuView, a: nat, b: nat)
    ensures
        advance(advance(v, a), b) == advance(v, a + b),
    decreases v.cycle + a,
{
    if v.cycle + a < 341 {
        assert(with_cycle(with_cycle(v, (v.cycle + a) as usize), 0) == with_cycle(v, 0));
        assert(with_cycle(with_cycle(v, (v.cycle + a) as usize), (v.cycle + a + b) as usize)
            == with_cycle(v, (v.cycle + a + b) as usize));
    } else {
        let w = next_line(with_cycle(v, 0));
        lemma_advance_add(w, (v.cycle + a - 341) as nat, b);
        assert((v.cycle + a - 341) as nat + b == (v.cycle + (a + b) - 341) as nat);
    }
}

/// A run of tick calls ends where one tick of their total would.
pub proof fn lemma_ticks_compose(v: PpuView, ks: Seq<nat>)
    requires
        v.cycle < 341,
    ensures
        advance_all(v, ks) == advance(v, sum_dots(ks)),
    decreases ks.len(),
{
    if ks.len() == 0 {
        assert(with_cycle(v, v.cycle) == v);
    } else {
        lemma_ticks_compose(v, ks.drop_last());
        lemma_advance_add(v, sum_dots(ks.drop_last()), ks.last());
    }
}

/// Tick calls that add up to one frame (341 x 262 dots), from the top-left dot, end at
/// scanline 0 with vertical blank clear and no pending interrupt, whatever their sizes.
pub proof fn lemma_tick_calls_frame(v: PpuView, ks: Seq<nat>)
    requires
        v.cycle == 0,
        v.scanline == 0,
        sum_dots(ks) == 341 * 262,
    ensures
        advance_all(v, ks).scanline == 0,
        advance_all(v, ks).cycle == 0,
        !advance_all(v, ks).regs.stat.vblank(),
        advance_all(v, ks).interrupt is None,
{
    lemma_ticks_compose(v, ks);
    lemma_frame_returns_to_top(v);
}

} // verus!
