//! The picture unit's register file.

use vstd::prelude::*;
use crate::word;

verus! {

/// The control register ($2000).
#[derive(Debug, Clone, Copy, PartialEq, Eq, Structural)]
pub struct ControlFlags {
    pub bits: u8,
}

impl ControlFlags {
    pub const BASE_NAMETABLE_ADDR_LO: u8 = 0b0000_0001;
    pub const BASE_NAMETABLE_ADDR_HI: u8 = 0b0000_0010;
    pub const VRAM_ADDR_INCREMENT: u8 = 0b0000_0100;
    pub const SPRITE_PATTERN_TABLE_ADDR: u8 = 0b0000_1000;
    pub const BACKGROUND_PATTERN_TABLE_ADDR: u8 = 0b0001_0000;
    pub const SPRITE_SIZE: u8 = 0b0010_0000;
    pub const MASTER_SLAVE_SELECT: u8 = 0b0100_0000;
    pub const VBLANK_NMI_ENABLE: u8 = 0b1000_0000;

    pub fn from_bits_truncate(bits: u8) -> (r: ControlFlags)
        ensures
            r.bits == bits,
    {
        ControlFlags { bits }
    }

    /// Whether every bit of `mask` is set.
    pub fn contains(&self, mask: u8) -> (r: bool)
        ensures
            r == (self.bits & mask == mask),
    {
        self.bits & mask == mask
    }

    /// Whether a vertical blank raises the non-maskable interrupt.
    pub open spec fn nmi_enabled(self) -> bool {
        self.bits & 0x80 != 0
    }

    /// The step of the VRAM address after a data access: 32 (one row) or 1.
    pub open spec fn increment_spec(self) -> u8 {
        if self.bits & 0x04 != 0 { 32 } else { 1 }
    }

    pub fn get_increment_val(&self) -> (r: u8)
        ensures
            r == self.increment_spec(),
    {
        if self.bits & Self::VRAM_ADDR_INCREMENT != 0 {
            32
        } else {
            1
        }
    }
}

/// The mask register ($2001).
#[derive(Debug, Clone, Copy, PartialEq, Eq, Structural)]
pub struct MaskFlags {
    pub bits: u8,
}

impl MaskFlags {
    pub const GREYSCALE_ENABLE: u8 = 0b0000_0001;
    pub const LEFT_EDGE_BACKGROUND: u8 = 0b0000_0010;
    pub const LEFT_EDGE_SPRITE: u8 = 0b0000_0100;
    pub const BACKGROUND_ENABLE: u8 = 0b0000_1000;
    pub const SPRITE_ENABLE: u8 = 0b0001_0000;
    pub const EMPHASIZE_RED: u8 = 0b0010_0000;
    pub const EMPHASIZE_GREEN: u8 = 0b0100_0000;
    pub const EMPHASIZE_BLUE: u8 = 0b1000_0000;

    pub fn from_bits_truncate(bits: u8) -> (r: MaskFlags)
        ensures
            r.bits == bits,
    {
        MaskFlags { bits }
    }
}

/// The status register ($2002).
#[derive(Debug, Clone, Copy, PartialEq, Eq, Structural)]
pub struct StatusFlags {
    pub bits: u8,
}

impl StatusFlags {
    pub const SPRITE_OVERFLOW: u8 = 0b0010_0000;
    pub const SPRITE_0_HIT: u8 = 0b0100_0000;
    pub const VBLANK: u8 = 0b1000_0000;

    pub fn empty() -> (r: StatusFlags)
        ensures
            r.bits == 0,
    {
        StatusFlags { bits: 0 }
    }

    pub fn bits(&self) -> (r: u8)
        ensures
            r == self.bits,
    {
        self.bits
    }

    /// Whether the vertical-blank bit is set.
    pub open spec fn vblank(self) -> bool {
        self.bits & 0x80 != 0
    }
}

/// The VRAM address register ($2006): two writes, high byte first, set a 14-bit address.
#[derive(Debug, Clone, Copy, PartialEq, Eq, Structural)]
pub struct PPUAddressRegister {
    pub hi: u8,
    pub lo: u8,
    pub write_to_hi_ptr: bool,
}

impl PPUAddressRegister {
    /// The address the register holds.
    pub open spec fn addr(self) -> u16 {
        word(self.hi, self.lo)
    }

    /// Whether the next write sets the high byte.
    pub open spec fn latch_hi(self) -> bool {
        self.write_to_hi_ptr
    }

    /// The register holds a 14-bit address.
    pub open spec fn wf(self) -> bool {
        self.hi < 0x40
    }

    /// The register after `write(data)`.
    pub open spec fn written(self, data: u8) -> PPUAddressRegister {
        PPUAddressRegister {
            hi: if self.write_to_hi_ptr { data & 0x3f } else { self.hi & 0x3f },
            lo: if self.write_to_hi_ptr { self.lo } else { data },
            write_to_hi_ptr: !self.write_to_hi_ptr,
        }
    }

    /// The register after `increment(inc)`.
    pub open spec fn incremented(self, inc: u8) -> PPUAddressRegister {
        PPUAddressRegister {
            hi: if self.lo as int + inc as int >= 256 {
                ((self.hi + 1) % 0x40) as u8
            } else {
                self.hi % 0x40
            },
            lo: ((self.lo as int + inc as int) % 256) as u8,
            write_to_hi_ptr: self.write_to_hi_ptr,
        }
    }

    /// The register with its latch flipped.
    pub open spec fn toggled(self) -> PPUAddressRegister {
        PPUAddressRegister { write_to_hi_ptr: !self.write_to_hi_ptr, ..self }
    }

    pub fn new() -> (r: PPUAddressRegister)
        ensures
            r == (PPUAddressRegister { hi: 0, lo: 0, write_to_hi_ptr: true }),
            r.addr() == 0,
            r.latch_hi(),
            r.wf(),
    {
        PPUAddressRegister { hi: 0, lo: 0, write_to_hi_ptr: true }
    }

    /// Writes the byte the latch points at, keeps the address to 14 bits, and flips the latch.
    pub fn write(&mut self, data: u8)
        ensures
            *final(self) == old(self).written(data),
            old(self).latch_hi() ==> final(self).addr() == word(data & 0x3f, old(self).lo),
            !old(self).latch_hi() ==> final(self).addr() == word(old(self).hi & 0x3f, data),
            final(self).latch_hi() == !old(self).latch_hi(),
            final(self).wf(),
    {
        if self.write_to_hi_ptr {
            self.hi = data;
        } else {
            self.lo = data;
        }
        let h = self.hi;
        self.hi = h & 0x3f;
        assert(h & 0x3f < 0x40u8) by (bit_vector);
        self.toggle_latch();
    }

    /// Advances the address by `inc`, wrapping within the 14-bit space.
    pub fn increment(&mut self, inc: u8)
        requires
            old(self).wf(),
        ensures
            *final(self) == old(self).incremented(inc),
            final(self).addr() == (old(self).addr() + inc) % 0x4000,
            final(self).latch_hi() == old(self).latch_hi(),
            final(self).wf(),
    {
        let lo = self.lo;
        let hi = self.hi;
        self.lo = self.lo.wrapping_add(inc);
        if lo > self.lo {
            self.hi = self.hi.wrapping_add(1);
        }
        self.hi = self.hi & 0x3f;
        let nlo = self.lo;
        let nhi = self.hi;
        assert(nlo == ((lo as int + inc as int) % 256) as u8);
        assert(lo > nlo <==> lo as int + inc as int >= 256);
        assert(nhi == (if lo as int + inc as int >= 256 { ((hi + 1) % 0x40) as u8 } else { hi })) by (bit_vector)
            requires
                hi < 0x40,
                nhi == (if lo > nlo { (if hi == 255 { 0u8 } else { (hi + 1) as u8 }) } else { hi }) & 0x3f,
                lo > nlo <==> lo as int + inc as int >= 256;
    }

    pub fn reset_latch(&mut self)
        ensures
            *final(self) == (PPUAddressRegister { write_to_hi_ptr: true, ..*old(self) }),
            final(self).addr() == old(self).addr(),
            final(self).latch_hi(),
            final(self).wf() == old(self).wf(),
    {
        self.write_to_hi_ptr = true;
    }

    pub fn toggle_latch(&mut self)
        ensures
            *final(self) == old(self).toggled(),
            final(self).addr() == old(self).addr(),
            final(self).latch_hi() == !old(self).latch_hi(),
            final(self).wf() == old(self).wf(),
    {
        self.write_to_hi_ptr = !self.write_to_hi_ptr;
    }

    pub fn get_addr(&self) -> (r: u16)
        ensures
            r == self.addr(),
    {
        crate::make_u16(self.hi, self.lo)
    }
}

/// The scroll register ($2005): two writes, x first, then y.
#[derive(Debug, Clone, Copy, PartialEq, Eq, Structural)]
pub struct PPUScrollRegister {
    pub x_scroll: u8,
    pub y_scroll: u8,
    pub write_to_x: bool,
}

impl PPUScrollRegister {
    /// Whether the next write sets the x scroll.
    pub open spec fn latch_x(self) -> bool {
        self.write_to_x
    }

    /// The register after `write(val)`.
    pub open spec fn written(self, val: u8) -> PPUScrollRegister {
        PPUScrollRegister {
            x_scroll: if self.write_to_x { val } else { self.x_scroll },
            y_scroll: if self.write_to_x { self.y_scroll } else { val },
            write_to_x: !self.write_to_x,
        }
    }

    /// The register with its latch flipped.
    pub open spec fn toggled(self) -> PPUScrollRegister {
        PPUScrollRegister { write_to_x: !self.write_to_x, ..self }
    }

    pub fn new() -> (r: PPUScrollRegister)
        ensures
            r == (PPUScrollRegister { x_scroll: 0, y_scroll: 0, write_to_x: true }),
            r.x_scroll == 0,
            r.y_scroll == 0,
            r.latch_x(),
    {
        PPUScrollRegister { x_scroll: 0, y_scroll: 0, write_to_x: true }
    }

    pub fn write(&mut self, val: u8)
        ensures
            *final(self) == old(self).written(val),
            old(self).latch_x() ==> final(self).x_scroll == val && final(self).y_scroll == old(self).y_scroll,
            !old(self).latch_x() ==> final(self).y_scroll == val && final(self).x_scroll == old(self).x_scroll,
            final(self).latch_x() == !old(self).latch_x(),
    {
        if self.write_to_x {
            self.x_scroll = val;
        } else {
            self.y_scroll = val;
        }
        self.toggle_latch();
    }

    pub fn reset_latch(&mut self)
        ensures
            *final(self) == (PPUScrollRegister { write_to_x: true, ..*old(self) }),
            final(self).x_scroll == old(self).x_scroll,
            final(self).y_scroll == old(self).y_scroll,
            final(self).latch_x(),
    {
        self.write_to_x = true;
    }

    pub fn toggle_latch(&mut self)
        ensures
            *final(self) == old(self).toggled(),
            final(self).x_scroll == old(self).x_scroll,
            final(self).y_scroll == old(self).y_scroll,
            final(self).latch_x() == !old(self).latch_x(),
    {
        self.write_to_x = !self.write_to_x;
    }
}

/// All registers of the picture unit.
#[derive(Debug, Clone, Copy, PartialEq, Eq, Structural)]
pub struct Registers {
    pub ctrl: ControlFlags,
    pub mask: MaskFlags,
    pub stat: StatusFlags,
    pub oam_addr: u8,
    pub oam_data: u8,
    pub scrl: PPUScrollRegister,
    pub ppu_addr: PPUAddressRegister,
    pub ppu_data: u8,
    pub oam_dma: u8,
}

impl Registers {
    pub open spec fn wf(self) -> bool {
        self.ppu_addr.wf()
    }

    /// The registers at power-on: all zero, both latches at their first byte.
    pub open spec fn initial() -> Registers {
        Registers {
            ctrl: ControlFlags { bits: 0 },
            mask: MaskFlags { bits: 0 },
            stat: StatusFlags { bits: 0 },
            oam_addr: 0,
            oam_data: 0,
            scrl: PPUScrollRegister { x_scroll: 0, y_scroll: 0, write_to_x: true },
            ppu_addr: PPUAddressRegister { hi: 0, lo: 0, write_to_hi_ptr: true },
            ppu_data: 0,
            oam_dma: 0,
        }
    }

    pub fn new() -> (r: Registers)
        ensures
            r == Registers::initial(),
            r.ctrl.bits == 0,
            r.mask.bits == 0,
            r.stat.bits == 0,
            r.oam_addr == 0,
            r.oam_data == 0,
            r.scrl.x_scroll == 0 && r.scrl.y_scroll == 0 && r.scrl.latch_x(),
            r.ppu_addr.addr() == 0,
            r.ppu_addr.latch_hi(),
            r.ppu_data == 0,
            r.oam_dma == 0,
            r.wf(),
    {
        Registers {
            ctrl: ControlFlags::from_bits_truncate(0),
            mask: MaskFlags::from_bits_truncate(0),
            stat: StatusFlags::empty(),
            oam_addr: 0,
            oam_data: 0,
            scrl: PPUScrollRegister::new(),
            ppu_addr: PPUAddressRegister::new(),
            ppu_data: 0,
            oam_dma: 0,
        }
    }
}

} // verus!
