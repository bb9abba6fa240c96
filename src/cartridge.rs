//! Cartridge images in the iNES container format.

use vstd::prelude::*;
use crate::ppu::Mirroring;

verus! {

/// Size of one program bank.
pub const PRG_ROM_PAGE_SIZE: usize = 0x4000;

/// Size of one character (tile) bank.
pub const CHR_ROM_PAGE_SIZE: usize = 0x2000;

/// Length of the container header.
pub const HEADER_LEN: usize = 16;

/// Length of the optional trainer block that precedes the program data.
pub const TRAINER_LEN: usize = 512;

/// Why an image was refused.
#[derive(Debug, Clone, Copy, PartialEq, Eq, Structural)]
pub enum FormatError {
    /// The image does not start with "NES" and 0x1A.
    MissingTag,
    /// The header announces a later version of the format.
    UnsupportedVersion,
    /// The cartridge needs a bank-switching mapper.
    UnsupportedMapper,
    /// The image is shorter than its header says.
    Truncated,
}

impl FormatError {
    /// A sentence that describes the error.
    pub fn message(&self) -> &'static str {
        match self {
            FormatError::MissingTag => "file format is not iNES 1.0 (missing NES tag)",
            FormatError::UnsupportedVersion => "iNES 2.0 format is not supported",
            FormatError::UnsupportedMapper => "only mapper 0 is supported",
            FormatError::Truncated => "file is shorter than its header says",
        }
    }
}

/// The image starts with the four tag bytes.
pub open spec fn has_tag(raw: Seq<u8>) -> bool {
    raw.len() >= 16 && raw[0] == 0x4e && raw[1] == 0x45 && raw[2] == 0x53 && raw[3] == 0x1a
}

/// The format version held in byte 7.
pub open spec fn version_of(raw: Seq<u8>) -> u8 {
    (raw[7] >> 2u8) & 3
}

/// The mapper number: high nibble from byte 7, low nibble from byte 6.
pub open spec fn mapper_of(raw: Seq<u8>) -> u8 {
    (raw[7] & 0xf0) | (raw[6] >> 4u8)
}

/// Where the program data starts: after the header and the trainer, if present.
pub open spec fn prg_start(raw: Seq<u8>) -> int {
    16 + if raw[6] & 4 != 0 { 512int } else { 0int }
}

pub open spec fn prg_len(raw: Seq<u8>) -> int {
    raw[4] as int * 0x4000
}

pub open spec fn chr_start(raw: Seq<u8>) -> int {
    prg_start(raw) + prg_len(raw)
}

pub open spec fn chr_len(raw: Seq<u8>) -> int {
    raw[5] as int * 0x2000
}

pub open spec fn mirroring_of(raw: Seq<u8>) -> Mirroring {
    if raw[6] & 8 != 0 {
        Mirroring::FourScreen
    } else if raw[6] & 1 != 0 {
        Mirroring::Vertical
    } else {
        Mirroring::Horizontal
    }
}

/// The error an image is refused with, checked in header order; `None` for a usable image.
pub open spec fn format_error(raw: Seq<u8>) -> Option<FormatError> {
    if raw.len() < 16 {
        Some(FormatError::Truncated)
    } else if !has_tag(raw) {
        Some(FormatError::MissingTag)
    } else if version_of(raw) != 0 {
        Some(FormatError::UnsupportedVersion)
    } else if mapper_of(raw) != 0 {
        Some(FormatError::UnsupportedMapper)
    } else if raw.len() < chr_start(raw) + chr_len(raw) {
        Some(FormatError::Truncated)
    } else {
        None
    }
}

/// The program and tile data of a cartridge, with its nametable layout.
#[derive(Debug)]
pub struct CartridgeROM {
    pub prg_rom: Vec<u8>,
    pub chr_rom: Vec<u8>,
    pub mapper: u8,
    pub screen_mirroring: Mirroring,
}

/// Copies `len` bytes of `src` from `start` on.
fn copy_range(src: &Vec<u8>, start: usize, len: usize) -> (r: Vec<u8>)
    requires
        start + len <= src@.len(),
    ensures
        r@ == src@.subrange(start as int, start + len),
{
    let mut r: Vec<u8> = Vec::with_capacity(len);
    let n = src.len();
    let mut i: usize = 0;
    while i < len
        invariant
            i <= len,
            n == src@.len(),
            start + len <= src@.len(),
            r@ == src@.subrange(start as int, start + i),
        decreases len - i,
    {
        r.push(src[start + i]);
        i = i + 1;
        assert(r@ =~= src@.subrange(start as int, start + i));
    }
    r
}

impl CartridgeROM {
    /// Parses an iNES 1.0 image of a cartridge without bank switching.
    pub fn new(raw_bytes: Vec<u8>) -> (r: Result<CartridgeROM, FormatError>)
        ensures
            r is Err <==> format_error(raw_bytes@) is Some,
            r is Err ==> Some(r->Err_0) == format_error(raw_bytes@),
            r is Ok ==> r->Ok_0.prg_rom@ == raw_bytes@.subrange(
                prg_start(raw_bytes@),
                chr_start(raw_bytes@),
            ),
            r is Ok ==> r->Ok_0.chr_rom@ == raw_bytes@.subrange(
                chr_start(raw_bytes@),
                chr_start(raw_bytes@) + chr_len(raw_bytes@),
            ),
            r is Ok ==> r->Ok_0.mapper == 0,
            r is Ok ==> r->Ok_0.screen_mirroring == mirroring_of(raw_bytes@),
    {
        if raw_bytes.len() < HEADER_LEN {
            return Err(FormatError::Truncated);
        }
        if raw_bytes[0] != 0x4e || raw_bytes[1] != 0x45 || raw_bytes[2] != 0x53 || raw_bytes[3]
            != 0x1a {
            return Err(FormatError::MissingTag);
        }
        let ines_ver = (raw_bytes[7] >> 2u8) & 0b11;
        if ines_ver != 0 {
            return Err(FormatError::UnsupportedVersion);
        }
        let mapper = (raw_bytes[7] & 0b1111_0000) | (raw_bytes[6] >> 4u8);
        if mapper != 0 {
            return Err(FormatError::UnsupportedMapper);
        }
        let prg_rom_size = raw_bytes[4] as usize * PRG_ROM_PAGE_SIZE;
        let chr_rom_size = raw_bytes[5] as usize * CHR_ROM_PAGE_SIZE;
        let trainer_offset: usize = if raw_bytes[6] & 0b100 != 0 { TRAINER_LEN } else { 0 };
        let prg_rom_start = HEADER_LEN + trainer_offset;
        let chr_rom_start = prg_rom_start + prg_rom_size;
        if raw_bytes.len() < chr_rom_start + chr_rom_size {
            return Err(FormatError::Truncated);
        }
        let four_screen = raw_bytes[6] & 0b1000 != 0;
        let vertical_mirroring = raw_bytes[6] & 0b1 != 0;
        let screen_mirroring = if four_screen {
            Mirroring::FourScreen
        } else if vertical_mirroring {
            Mirroring::Vertical
        } else {
            Mirroring::Horizontal
        };
        let prg_rom = copy_range(&raw_bytes, prg_rom_start, prg_rom_size);
        let chr_rom = copy_range(&raw_bytes, chr_rom_start, chr_rom_size);
        Ok(CartridgeROM { prg_rom, chr_rom, mapper, screen_mirroring })
    }

    /// A cartridge with no program and no tiles.
    pub fn dummy() -> (r: CartridgeROM)
        ensures
            r.prg_rom@.len() == 0,
            r.chr_rom@.len() == 0,
            r.mapper == 0,
            r.screen_mirroring == Mirroring::FourScreen,
    {
        CartridgeROM {
            prg_rom: Vec::new(),
            chr_rom: Vec::new(),
            mapper: 0,
            screen_mirroring: Mirroring::FourScreen,
        }
    }
}

} // verus!
