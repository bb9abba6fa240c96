use nes_emulator::cartridge::{CartridgeROM, FormatError};
use nes_emulator::cpu::{StatusFlags, CPU};
use nes_emulator::instructions::{get_instruction, AddressingMode, Instruction, InstructionName};
use nes_emulator::memory_bus::{InterruptType, MemoryBus};
use nes_emulator::ppu::{Mirroring, PPU};
use nes_emulator::ppu_registers::PPUAddressRegister;
use nes_emulator::renderer::PixelsRenderer;
use nes_emulator::NESSystem;

fn ins(opcode: u8) -> Instruction {
    get_instruction(opcode).unwrap()
}

/// An iNES image: header, optional trainer, then `prg_banks` program banks filled with
/// `prg_fill` and `chr_banks` tile banks filled with `chr_fill`.
fn image(prg_banks: u8, chr_banks: u8, flags6: u8, flags7: u8, prg_fill: u8, chr_fill: u8) -> Vec<u8> {
    let mut raw = vec![0x4e, 0x45, 0x53, 0x1a, prg_banks, chr_banks, flags6, flags7];
    raw.resize(16, 0);
    if flags6 & 0b100 != 0 {
        raw.resize(16 + 512, 0xee);
    }
    let prg_start = raw.len();
    raw.resize(prg_start + prg_banks as usize * 0x4000, prg_fill);
    let chr_start = raw.len();
    raw.resize(chr_start + chr_banks as usize * 0x2000, chr_fill);
    raw
}

#[test]
fn every_opcode_decodes_to_itself_or_nothing() {
    let mut known = 0;
    for op in 0..=255u8 {
        if let Some(i) = get_instruction(op) {
            assert_eq!(i.opcode, op);
            let operand = match i.mode {
                AddressingMode::Implicit | AddressingMode::Accumulator => 0,
                AddressingMode::Absolute
                | AddressingMode::AbsoluteX
                | AddressingMode::AbsoluteY
                | AddressingMode::Indirect => 2,
                _ => 1,
            };
            assert_eq!(i.bytes, 1 + operand);
            known += 1;
        }
    }
    assert_eq!(known, 151);
    assert!(get_instruction(0x02).is_none());
    assert_eq!(ins(0x10).name, InstructionName::BPL);
    assert_eq!(ins(0x61).mode, AddressingMode::IndexedIndirect);
    assert_eq!(ins(0x71).mode, AddressingMode::IndirectIndexed);
}

#[test]
fn adc_scenarios() {
    let mut cpu = CPU::new();
    cpu.memory.write(1, 0x10);
    cpu.accumulator = 0x50;
    cpu.execute(ins(0x69));
    assert_eq!(cpu.accumulator, 0x60);
    assert_eq!(cpu.flags.bits(), 0);

    cpu.program_counter = 0;
    cpu.memory.write(1, 0x50);
    cpu.accumulator = 0x50;
    cpu.execute(ins(0x69));
    assert_eq!(cpu.accumulator, 0xa0);
    assert_eq!(cpu.get_flag(StatusFlags::NEGATIVE), 1);
    assert_eq!(cpu.get_flag(StatusFlags::OVERFLOW), 1);
    assert_eq!(cpu.get_flag(StatusFlags::CARRY), 0);
    assert_eq!(cpu.get_flag(StatusFlags::ZERO), 0);
}

#[test]
fn sbc_borrows_through_the_complement() {
    let mut cpu = CPU::new();
    cpu.memory.write(1, 0x01);
    cpu.set_flag(StatusFlags::CARRY, 1);
    cpu.accumulator = 0x00;
    cpu.execute(ins(0xe9));
    assert_eq!(cpu.accumulator, 0xff);
    assert_eq!(cpu.get_flag(StatusFlags::CARRY), 0);
    assert_eq!(cpu.get_flag(StatusFlags::NEGATIVE), 1);
}

#[test]
fn cmp_scenarios() {
    for (operand, carry, zero, negative) in [(5u8, 1u8, 0u8, 0u8), (20, 0, 0, 1), (10, 1, 1, 0)] {
        let mut cpu = CPU::new();
        cpu.memory.write(1, operand);
        cpu.accumulator = 10;
        cpu.execute(ins(0xc9));
        assert_eq!(cpu.get_flag(StatusFlags::CARRY), carry);
        assert_eq!(cpu.get_flag(StatusFlags::ZERO), zero);
        assert_eq!(cpu.get_flag(StatusFlags::NEGATIVE), negative);
    }
}

#[test]
fn branch_timing() {
    let mut cpu = CPU::new();
    cpu.memory.write(0x301, 0xfc);
    cpu.program_counter = 0x300;
    cpu.set_flag(StatusFlags::CARRY, 1);
    cpu.execute(ins(0xb0));
    assert_eq!(cpu.cycle_count, 3);
    assert_eq!(cpu.program_counter, 0x302 - 4);

    let mut cpu = CPU::new();
    cpu.program_counter = 0x300;
    cpu.execute(ins(0xb0));
    assert_eq!(cpu.cycle_count, 2);
    assert_eq!(cpu.program_counter, 0x302);
}

#[test]
fn pha_pla_round_trip_and_stack_wrap() {
    let mut cpu = CPU::new();
    cpu.stack_pointer = 0x80;
    cpu.accumulator = 0x5a;
    cpu.execute(ins(0x48));
    assert_eq!(cpu.stack_pointer, 0x7f);
    cpu.accumulator = 0;
    cpu.execute(ins(0x68));
    assert_eq!(cpu.accumulator, 0x5a);
    assert_eq!(cpu.stack_pointer, 0x80);

    let mut cpu = CPU::new();
    cpu.stack_pointer = 0x10;
    let mut wraps = 0;
    for i in 0..256u32 {
        let before = cpu.stack_pointer;
        cpu.stack_push_u8(i as u8);
        if before == 0x00 && cpu.stack_pointer == 0xff {
            wraps += 1;
        }
    }
    assert_eq!(wraps, 1);
    assert_eq!(cpu.stack_pointer, 0x10);
}

#[test]
fn jmp_indirect_stays_in_page() {
    let mut cpu = CPU::new();
    cpu.memory.write(0x0000, 0x6c);
    cpu.memory.write(0x0001, 0xff);
    cpu.memory.write(0x0002, 0x04);
    cpu.memory.write(0x04ff, 0x34);
    cpu.memory.write(0x0400, 0x12);
    cpu.memory.write(0x0500, 0x99);
    cpu.execute(ins(0x6c));
    assert_eq!(cpu.program_counter, 0x1234);
}

#[test]
fn brk_pushes_and_vectors() {
    let mut cpu = CPU::new();
    cpu.program_counter = 0x0200;
    cpu.flags = StatusFlags::from_bits_truncate(0b1000_0001);
    cpu.execute(ins(0x00));
    assert_eq!(cpu.stack_pointer, 0xfc);
    assert_eq!(cpu.memory.read(0x1ff), 0x02);
    assert_eq!(cpu.memory.read(0x1fe), 0x02);
    assert_eq!(cpu.memory.read(0x1fd), 0b1011_0001);
    assert_eq!(cpu.get_flag(StatusFlags::INTERRUPT_DISABLE), 1);
    // no program ROM: the vector reads as zero
    assert_eq!(cpu.program_counter, 0);
}

#[test]
fn rti_restores_flags_and_pc() {
    let mut cpu = CPU::new();
    cpu.stack_push_u16(0x1234);
    cpu.stack_push_u8(0b1101_0011);
    cpu.execute(ins(0x40));
    assert_eq!(cpu.program_counter, 0x1234);
    assert_eq!(cpu.flags.bits(), 0b1110_0011);
    assert_eq!(cpu.stack_pointer, 0xff);
}

#[test]
fn memory_rmw_and_rotations() {
    let mut cpu = CPU::new();
    cpu.memory.write(0x10, 0x81);
    cpu.memory.write(1, 0x10);
    cpu.set_flag(StatusFlags::CARRY, 1);
    cpu.execute(ins(0x26));
    assert_eq!(cpu.memory.read(0x10), 0x03);
    assert_eq!(cpu.get_flag(StatusFlags::CARRY), 1);

    cpu.program_counter = 0;
    cpu.execute(ins(0x66));
    assert_eq!(cpu.memory.read(0x10), 0x81);
    assert_eq!(cpu.get_flag(StatusFlags::NEGATIVE), 1);
}

#[test]
fn ram_is_mirrored() {
    let mut bus = MemoryBus::new(PPU::new(CartridgeROM::dummy()));
    bus.write(0x0012, 0x77);
    assert_eq!(bus.read(0x0812), 0x77);
    assert_eq!(bus.read(0x1812), 0x77);
    bus.write(0x1fff, 0x42);
    assert_eq!(bus.read(0x07ff), 0x42);
    assert_eq!(bus.dbg_read(0x0fff), 0x42);
    assert_eq!(bus.read(0x5000), 0);
}

#[test]
fn prg_rom_single_bank_is_mirrored() {
    let mut raw = image(1, 1, 0, 0, 0, 0);
    raw[16] = 0xab;
    raw[16 + 0x3ffc] = 0x00;
    raw[16 + 0x3ffd] = 0x80;
    let cart = CartridgeROM::new(raw).unwrap();
    let mut bus = MemoryBus::new(PPU::new(cart));
    assert_eq!(bus.read(0x8000), 0xab);
    assert_eq!(bus.read(0xc000), 0xab);
    assert_eq!(bus.read_16bit(0xfffc), 0x8000);
    assert_eq!(bus.dbg_read_16bit(0xfffc), 0x8000);
    bus.write(0x8000, 0x00);
    assert_eq!(bus.read(0x8000), 0xab);
}

#[test]
fn ppu_registers_through_the_bus() {
    let mut raw = image(1, 1, 1, 0, 0, 0x5c);
    raw[16 + 0x4000 + 0x10] = 0x3d;
    let cart = CartridgeROM::new(raw).unwrap();
    let mut bus = MemoryBus::new(PPU::new(cart));

    // write to nametable 0x2400 (vertical mirroring folds 0x2c00 onto it)
    bus.write(0x2006, 0x24);
    bus.write(0x2006, 0x00);
    bus.write(0x2007, 0x66);
    bus.write(0x200e, 0x2c);
    bus.write(0x2006, 0x00);
    assert_eq!(bus.read(0x2007), 0);
    assert_eq!(bus.read(0x2007), 0x66);

    // tile memory reads go through the buffer too
    bus.write(0x2006, 0x00);
    bus.write(0x2006, 0x10);
    bus.read(0x2007);
    assert_eq!(bus.read(0x2007), 0x3d);

    // palette: 0x3f10 folds onto 0x3f00, no buffering
    bus.write(0x2006, 0x3f);
    bus.write(0x2006, 0x10);
    bus.write(0x2007, 0x21);
    bus.write(0x2006, 0x3f);
    bus.write(0x2006, 0x00);
    assert_eq!(bus.read(0x2007), 0x21);

    // reading the write-only control register gives zero
    assert_eq!(bus.read(0x2000), 0);
}

#[test]
fn vram_increment_by_row() {
    let mut ppu = PPU::new(CartridgeROM::dummy());
    ppu.write_to_ctrl(0b100);
    ppu.write_to_ppu_addr(0x20);
    ppu.write_to_ppu_addr(0x00);
    ppu.write_to_data(1);
    assert_eq!(ppu.regs.ppu_addr.get_addr(), 0x2020);
}

#[test]
fn status_read_clears_vblank_and_latch() {
    let mut ppu = PPU::new(CartridgeROM::dummy());
    ppu.cycle_count = 0;
    ppu.tick(341 * 241);
    assert_eq!(ppu.scanline, 241);
    ppu.write_to_ppu_addr(0x21);
    assert_eq!(ppu.read_status() & 0x80, 0x80);
    assert_eq!(ppu.read_status() & 0x80, 0);
    ppu.write_to_ppu_addr(0x23);
    ppu.write_to_ppu_addr(0x45);
    assert_eq!(ppu.regs.ppu_addr.get_addr(), 0x2345);
}

#[test]
fn frame_of_dots_returns_to_top() {
    let mut ppu = PPU::new(CartridgeROM::dummy());
    ppu.cycle_count = 0;
    ppu.write_to_ctrl(0x80);
    let mut raised = 0;
    let mut frames = 0;
    for _ in 0..(341 * 262) {
        let before = ppu.interrupt.is_some();
        if ppu.tick(1) {
            frames += 1;
        }
        if !before && ppu.interrupt == Some(InterruptType::NonMaskable) {
            raised += 1;
        }
    }
    assert_eq!(raised, 1);
    assert_eq!(frames, 1);
    assert_eq!(ppu.scanline, 0);
    assert_eq!(ppu.cycle_count, 0);
    assert_eq!(ppu.regs.stat.bits() & 0x80, 0);
    assert!(ppu.interrupt.is_none());
}

#[test]
fn enabling_nmi_during_vblank_raises_it() {
    let mut ppu = PPU::new(CartridgeROM::dummy());
    ppu.cycle_count = 0;
    ppu.tick(341 * 241 + 5);
    assert!(ppu.interrupt.is_none());
    ppu.write_to_ctrl(0x80);
    assert_eq!(ppu.interrupt, Some(InterruptType::NonMaskable));
}

#[test]
fn oam_dma_copies_a_page() {
    let mut bus = MemoryBus::new(PPU::new(CartridgeROM::dummy()));
    for i in 0..256u16 {
        bus.write(0x0200 + i, i as u8);
    }
    bus.write(0x2003, 0x10);
    bus.write(0x4014, 0x02);
    assert_eq!(bus.ppu.oam_data[0x10], 0);
    assert_eq!(bus.ppu.oam_data[0x11], 1);
    assert_eq!(bus.ppu.oam_data[0x0f], 0xff);
    assert_eq!(bus.read(0x2004), 0);
}

#[test]
fn nametable_mirroring() {
    let mut h = CartridgeROM::dummy();
    h.screen_mirroring = Mirroring::Horizontal;
    let ppu = PPU::new(h);
    assert_eq!(ppu.mirror_vram_addr(0x2000), 0x000);
    assert_eq!(ppu.mirror_vram_addr(0x2400), 0x000);
    assert_eq!(ppu.mirror_vram_addr(0x2800), 0x400);
    assert_eq!(ppu.mirror_vram_addr(0x2c05), 0x405);
    assert_eq!(ppu.mirror_vram_addr(0x3005), 0x005);

    let mut v = CartridgeROM::dummy();
    v.screen_mirroring = Mirroring::Vertical;
    let ppu = PPU::new(v);
    assert_eq!(ppu.mirror_vram_addr(0x2400), 0x400);
    assert_eq!(ppu.mirror_vram_addr(0x2800), 0x000);
    assert_eq!(ppu.mirror_vram_addr(0x2c00), 0x400);

    let ppu = PPU::new(CartridgeROM::dummy());
    assert_eq!(ppu.mirror_vram_addr(0x2c00), 0xc00);
}

#[test]
fn address_register_wraps_at_fourteen_bits() {
    let mut r = PPUAddressRegister::new();
    r.write(0x7f);
    r.write(0xff);
    assert_eq!(r.get_addr(), 0x3fff);
    r.increment(1);
    assert_eq!(r.get_addr(), 0);
    r.write(0x12);
    r.write(0xf0);
    r.increment(32);
    assert_eq!(r.get_addr(), 0x1310);
}

#[test]
fn cartridge_round_trip_with_trainer() {
    let mut raw = image(2, 1, 0b0000_0101, 0, 0x11, 0x22);
    raw[16 + 512] = 0x01;
    raw[16 + 512 + 0x7fff] = 0x02;
    raw[16 + 512 + 0x8000] = 0x03;
    let cart = CartridgeROM::new(raw.clone()).unwrap();
    assert_eq!(cart.prg_rom, raw[528..528 + 0x8000].to_vec());
    assert_eq!(cart.chr_rom, raw[528 + 0x8000..].to_vec());
    assert_eq!(cart.prg_rom[0], 0x01);
    assert_eq!(cart.chr_rom[0], 0x03);
    assert_eq!(cart.screen_mirroring, Mirroring::Vertical);
    assert_eq!(cart.mapper, 0);

    let four = CartridgeROM::new(image(1, 0, 0b1000, 0, 0, 0)).unwrap();
    assert_eq!(four.screen_mirroring, Mirroring::FourScreen);
    assert_eq!(four.chr_rom.len(), 0);
}

#[test]
fn cartridge_errors() {
    assert_eq!(CartridgeROM::new(vec![0x4e, 0x45]).unwrap_err(), FormatError::Truncated);
    let mut bad = image(1, 1, 0, 0, 0, 0);
    bad[3] = 0;
    assert_eq!(CartridgeROM::new(bad).unwrap_err(), FormatError::MissingTag);
    assert_eq!(
        CartridgeROM::new(image(1, 1, 0, 0b1000, 0, 0)).unwrap_err(),
        FormatError::UnsupportedVersion
    );
    assert_eq!(
        CartridgeROM::new(image(1, 1, 0x10, 0, 0, 0)).unwrap_err(),
        FormatError::UnsupportedMapper
    );
    let mut short = image(1, 1, 0, 0, 0, 0);
    short.pop();
    assert_eq!(CartridgeROM::new(short).unwrap_err(), FormatError::Truncated);
    assert!(!FormatError::MissingTag.message().is_empty());
}

/// A program at 0x8000 that turns on the vertical-blank interrupt and spins; the interrupt
/// handler at 0x8010 counts into 0x0010.
fn spin_rom() -> Vec<u8> {
    let mut raw = image(1, 1, 0, 0, 0xea, 0);
    let prg = 16;
    let program = [0xa9, 0x80, 0x8d, 0x00, 0x20, 0x4c, 0x05, 0x80];
    raw[prg..prg + program.len()].copy_from_slice(&program);
    let handler = [0xe6, 0x10, 0x40];
    raw[prg + 0x10..prg + 0x13].copy_from_slice(&handler);
    raw[prg + 0x3ffa] = 0x10;
    raw[prg + 0x3ffb] = 0x80;
    raw[prg + 0x3ffc] = 0x00;
    raw[prg + 0x3ffd] = 0x80;
    raw
}

#[test]
fn system_runs_frames_and_services_nmi() {
    let mut emu = NESSystem::new(spin_rom()).unwrap();
    assert_eq!(emu.cpu.program_counter, 0x8000);
    emu.tick_n(3);
    assert_eq!(emu.cpu.program_counter, 0x8005);
    let before = emu.cpu.cycle_count;
    emu.tick_one_frame();
    assert!(emu.cpu.cycle_count - before >= 29781);
    emu.tick_one_frame();
    emu.tick_one_frame();
    let count = emu.cpu.memory.read(0x10);
    assert!(count >= 2 && count <= 3);
    let mut frame = vec![0u8; 256 * 240];
    emu.render(&mut frame);
    assert!(frame.iter().all(|&c| c == 0));
}

#[test]
fn system_refuses_bad_images() {
    assert!(matches!(NESSystem::new(vec![1, 2, 3]), Err(FormatError::Truncated)));
}

#[test]
fn illegal_opcode_is_a_two_cycle_no_op() {
    let mut cpu = CPU::new();
    cpu.memory.write(0, 0x02);
    let cycles = cpu.tick();
    assert_eq!(cycles, 2);
    assert_eq!(cpu.program_counter, 1);
}

#[test]
fn background_pixels_from_tiles_and_attributes() {
    let mut raw = image(1, 1, 0, 0, 0, 0);
    let chr = 16 + 0x4000;
    // tile 1: plane 0 row 0 = 0b1000_0000, plane 1 row 0 = 0b1100_0000
    raw[chr + 16] = 0b1000_0000;
    raw[chr + 16 + 8] = 0b1100_0000;
    let cart = CartridgeROM::new(raw).unwrap();
    let mut ppu = PPU::new(cart);
    ppu.vram[0] = 1;
    ppu.vram[960] = 0b01;
    ppu.palette_table[0] = 0x0f;
    ppu.palette_table[5] = 0x11;
    ppu.palette_table[6] = 0x12;
    ppu.palette_table[7] = 0x13;
    let mut frame = vec![0u8; 256 * 240];
    ppu.draw_to_buffer(&mut frame);
    // pixel 0: hi plane 1, lo plane 1 -> colour 3 of palette 1
    assert_eq!(frame[0], 0x13);
    // pixel 1: lo plane 1 only -> colour 1
    assert_eq!(frame[1], 0x11);
    assert_eq!(frame[2], 0x0f);
    assert_eq!(ppu.pixel(256), 0x0f);
}

#[test]
fn renderer_colours_palette_indexes() {
    let palette: Vec<(u8, u8, u8)> = (0..64u8).map(|i| (i, i.wrapping_mul(2), i.wrapping_mul(3))).collect();
    let mut renderer = PixelsRenderer::new(palette);
    renderer.palette_buffer[0] = 5;
    renderer.palette_buffer[1] = 64 + 7;
    let mut rgba = vec![0u8; 4 * 256 * 240];
    renderer.draw_to(&mut rgba);
    assert_eq!(&rgba[0..8], &[5, 10, 15, 255, 7, 14, 21, 255]);
    assert_eq!(&rgba[8..12], &[0, 0, 0, 255]);
}

#[test]
fn add_to_acc_sets_only_carry_and_overflow() {
    let mut cpu = CPU::new();
    cpu.accumulator = 0;
    cpu.add_to_acc(0);
    assert_eq!(cpu.accumulator, 0);
    assert_eq!(cpu.flags.bits(), 0);

    cpu.accumulator = 0xff;
    cpu.add_to_acc(0x01);
    assert_eq!(cpu.accumulator, 0);
    assert_eq!(cpu.flags.bits(), 0b0000_0001);
}

#[test]
fn uneven_tick_calls_make_one_frame() {
    let mut ppu = PPU::new(CartridgeROM::dummy());
    ppu.cycle_count = 0;
    let mut remaining: usize = 341 * 262;
    let mut ends = 0;
    let mut step = 1;
    while remaining > 0 {
        let k = step.min(remaining);
        if ppu.tick(k) {
            ends += 1;
        }
        remaining -= k;
        step = step % 341 + 7;
    }
    assert_eq!(ends, 1);
    assert_eq!(ppu.scanline, 0);
    assert_eq!(ppu.cycle_count, 0);
    assert!(ppu.interrupt.is_none());
}
