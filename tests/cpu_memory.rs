#![allow(dead_code, unused_imports)]
use nes_emulator::cpu::{StatusFlags, CPU, STACK_START};
use nes_emulator::instructions::{get_instruction, AddressingMode, Instruction};

fn ins(opcode: u8) -> Instruction {
    get_instruction(opcode).unwrap()
}

fn set_single_byte(cpu: &mut CPU, address: u16, byte: u8) {
    cpu.memory.write(address, byte);
}

fn set_multiple_bytes(cpu: &mut CPU, start_address: u16, bytes: &Vec<u8>) {
    for i in 0..bytes.len() {
        set_single_byte(cpu, start_address + i as u16, bytes[i]);
    }
}

fn set_byte_example(cpu: &mut CPU) {
    for i in 0..0xffff_u16 {
        let val = i.wrapping_add(1857).wrapping_mul(937) as u8;
        set_single_byte(cpu, i, val);
    }
}

fn get_example_byte(i: u16) -> u8 {
    i.wrapping_add(1857).wrapping_mul(937) as u8
}

#[test]
fn test_set_byte() {
    let mut cpu = CPU::new();

    set_single_byte(&mut cpu, 0x1110, 35);
    set_single_byte(&mut cpu, 0x1111, 15);
    set_single_byte(&mut cpu, 0x1112, 25);
    assert_eq!(cpu.memory.read(0x1110), 35);
    assert_eq!(cpu.memory.read(0x1111), 15);
    assert_eq!(cpu.memory.read(0x1112), 25);
}

#[test]
fn test_set_bytes() {
    let mut cpu = CPU::new();

    let bytes = vec![12, 53, 67, 21, 66, 40];

    set_multiple_bytes(&mut cpu, 500, &bytes);

    for i in 0..bytes.len() {
        assert_eq!(cpu.memory.read(500 + i as u16), bytes[i]);
    }
}

#[test]
fn test_read_everything() {
    let mut cpu = CPU::new();

    for i in 0..0x1fff_u16 {
        let val = i.wrapping_mul(1793) as u8;
        set_single_byte(&mut cpu, i, val);
        assert_eq!(cpu.memory.read(i), val);
    }
}

#[test]
fn test_read_z() {
    let mut cpu = CPU::new();
    set_byte_example(&mut cpu);

    assert_eq!(cpu.read_8bit(10, AddressingMode::ZeroPage), get_example_byte(10));
    assert_eq!(cpu.read_8bit(0, AddressingMode::ZeroPage), get_example_byte(0));
    assert_eq!(cpu.read_8bit(200, AddressingMode::ZeroPage), get_example_byte(200));
}

#[test]
fn test_read_zx() {
    let mut cpu = CPU::new();
    set_byte_example(&mut cpu);
    cpu.reg_x = 62;
    cpu.reg_y = 12;

    assert_eq!(cpu.read_8bit(10, AddressingMode::ZeroPageX), get_example_byte(10 + 62));
    assert_eq!(cpu.read_8bit(0, AddressingMode::ZeroPageX), get_example_byte(0 + 62));
    assert_eq!(
        cpu.read_8bit(200, AddressingMode::ZeroPageX),
        get_example_byte((200 + 62) % 256)
    );
}

#[test]
fn test_read_zy() {
    let mut cpu = CPU::new();
    set_byte_example(&mut cpu);
    cpu.reg_y = 74;
    cpu.reg_x = 65;

    assert_eq!(cpu.read_8bit(10, AddressingMode::ZeroPageY), get_example_byte(10 + 74));
    assert_eq!(cpu.read_8bit(0, AddressingMode::ZeroPageY), get_example_byte(0 + 74));
    assert_eq!(
        cpu.read_8bit(200, AddressingMode::ZeroPageY),
        get_example_byte((200 + 74) % 256)
    );
}

// #[test]
// fn test_read_ix() {
//     let mut cpu = CPU::new();
//     set_byte_example(&mut cpu);
//     cpu.reg_x = 9;
//     cpu.reg_y = 100;

//     let lb = get_example_byte(196 + 9);
//     let hb = get_example_byte(197 + 9);
//     let addr_le = dbg!(((hb as u16) << 8) | (lb as u16));
//     let addr_be = ((lb as u16) << 8) | (hb as u16);

//     assert_eq!(addr_le, cpu.get_addr_8bit(196, AddressingMode::IndexedIndirect));

//     assert_eq!(
//         cpu.read_8bit(196, AddressingMode::IndexedIndirect),
//         dbg!(get_example_byte(addr_le))
//     );
//     assert_eq!(
//         cpu.read_8bit(196, AddressingMode::IndexedIndirect),
//         cpu.read_16bit(addr_le, AddressingMode::Absolute)
//     );

//     assert_ne!(
//         cpu.read_8bit(196, AddressingMode::IndexedIndirect),
//         get_example_byte(addr_be)
//     );
//     assert_ne!(
//         cpu.read_8bit(196, AddressingMode::IndexedIndirect),
//         cpu.read_16bit(addr_be, AddressingMode::Absolute)
//     );
// }

// #[test]
// fn test_read_iy() {
//     let mut cpu = CPU::new();
//     set_byte_example(&mut cpu);
//     cpu.reg_y = 11;
//     cpu.reg_x = 90;

//     let lb = get_example_byte(55);
//     let hb = get_example_byte(56);
//     let addr_le = (((hb as u16) << 8) | (lb as u16)) + 11;
//     let addr_be = (((lb as u16) << 8) | (hb as u16)) + 11;

//     assert_eq!(addr_le, cpu.get_addr_8bit(55, AddressingMode::IndirectIndexed));

//     assert_eq!(
//         cpu.read_8bit(55, AddressingMode::IndirectIndexed),
//         get_example_byte(addr_le)
//     );
//     assert_eq!(
//         cpu.read_8bit(55, AddressingMode::IndirectIndexed),
//         cpu.read_16bit(addr_le, AddressingMode::Absolute)
//     );

//     assert_ne!(
//         cpu.read_8bit(55, AddressingMode::IndirectIndexed),
//         get_example_byte(addr_be)
//     );
//     assert_ne!(
//         cpu.read_8bit(55, AddressingMode::IndirectIndexed),
//         cpu.read_16bit(addr_be, AddressingMode::Absolute)
//     );
// }

// #[test]
// fn test_read_i() {
//     let mut cpu = CPU::new();
//     set_byte_example(&mut cpu);

//     let lb = get_example_byte(1012);
//     let hb = get_example_byte(1013);
//     let addr_le = ((hb as u16) << 8) | (lb as u16);
//     let addr_be = ((lb as u16) << 8) | (hb as u16);

//     assert_eq!(addr_le, cpu.get_addr_16bit(1012, AddressingMode::Indirect));

//     assert_eq!(cpu.read_16bit(1012, AddressingMode::Indirect), get_example_byte(addr_le));
//     assert_eq!(
//         cpu.read_16bit(1012, AddressingMode::Indirect),
//         cpu.read_16bit(addr_le, AddressingMode::Absolute)
//     );

//     assert_ne!(cpu.read_16bit(1012, AddressingMode::Indirect), get_example_byte(addr_be));
//     assert_ne!(
//         cpu.read_16bit(1012, AddressingMode::Indirect),
//         cpu.read_16bit(addr_be, AddressingMode::Absolute)
//     );
// }

#[test]
fn test_read_a() {
    let mut cpu = CPU::new();
    set_byte_example(&mut cpu);

    assert_eq!(2138, cpu.get_addr_16bit(2138, AddressingMode::Absolute));

    assert_eq!(cpu.read_16bit(2138, AddressingMode::Absolute), get_example_byte(2138));
}

#[test]
fn test_read_ax() {
    let mut cpu = CPU::new();
    set_byte_example(&mut cpu);
    cpu.reg_x = 46;
    cpu.reg_y = 64;

    assert_eq!(2138 + 46, cpu.get_addr_16bit(2138, AddressingMode::AbsoluteX));

    assert_eq!(cpu.read_16bit(2138, AddressingMode::AbsoluteX), get_example_byte(2138 + 46));
}

#[test]
fn test_read_ay() {
    let mut cpu = CPU::new();
    set_byte_example(&mut cpu);
    cpu.reg_y = 113;
    cpu.reg_x = 46;

    assert_eq!(2138 + 113, cpu.get_addr_16bit(2138, AddressingMode::AbsoluteY));

    assert_eq!(
        cpu.read_16bit(2138, AddressingMode::AbsoluteY),
        get_example_byte(2138 + 113)
    );
}
