#![allow(dead_code, unused_imports)]
use nes_emulator::cpu::{StatusFlags, CPU, STACK_START};
use nes_emulator::instructions::{get_instruction, AddressingMode, Instruction};

fn ins(opcode: u8) -> Instruction {
    get_instruction(opcode).unwrap()
}

fn set_single_byte(cpu: &mut CPU, address: u16, byte: u8) {
    cpu.memory.write(address, byte);
}

fn set_multiple_bytes(cpu: &mut CPU, start_address: u16, bytes: &Vec<u8>) {
    for i in 0..bytes.len() {
        set_single_byte(cpu, start_address + i as u16, bytes[i]);
    }
}

fn set_byte_example(cpu: &mut CPU) {
    for i in 0..0xffff_u16 {
        let val = i.wrapping_add(1857).wrapping_mul(937) as u8;
        set_single_byte(cpu, i, val);
    }
}

fn get_example_byte(i: u16) -> u8 {
    i.wrapping_add(1857).wrapping_mul(937) as u8
}

#[test]
fn test_tax() {
    let mut cpu = CPU::new();

    cpu.accumulator = 0x12;
    cpu.reg_x = 0x34;
    cpu.reg_y = 0x56;

    cpu.execute(ins(0xaa));

    assert_eq!(cpu.accumulator, 0x12);
    assert_eq!(cpu.reg_x, 0x12);
    assert_eq!(cpu.get_flag(StatusFlags::ZERO), 0);
    assert_eq!(cpu.get_flag(StatusFlags::NEGATIVE), 0);
}

#[test]
fn test_txa() {
    let mut cpu = CPU::new();

    cpu.accumulator = 0x12;
    cpu.reg_x = 0x84;
    cpu.reg_y = 0x56;

    cpu.execute(ins(0x8a));

    assert_eq!(cpu.accumulator, 0x84);
    assert_eq!(cpu.reg_x, 0x84);
    assert_eq!(cpu.get_flag(StatusFlags::ZERO), 0);
    assert_eq!(cpu.get_flag(StatusFlags::NEGATIVE), 1);
}

#[test]
fn test_tay() {
    let mut cpu = CPU::new();

    cpu.accumulator = 0x12;
    cpu.reg_y = 0x34;
    cpu.reg_x = 0x56;

    cpu.execute(ins(0xa8));

    assert_eq!(cpu.accumulator, 0x12);
    assert_eq!(cpu.reg_y, 0x12);
    assert_eq!(cpu.get_flag(StatusFlags::ZERO), 0);
    assert_eq!(cpu.get_flag(StatusFlags::NEGATIVE), 0);
}

#[test]
fn test_tya() {
    let mut cpu = CPU::new();

    cpu.accumulator = 0x12;
    cpu.reg_y = 0x84;
    cpu.reg_x = 0x56;

    cpu.execute(ins(0x98));

    assert_eq!(cpu.accumulator, 0x84);
    assert_eq!(cpu.reg_y, 0x84);
    assert_eq!(cpu.get_flag(StatusFlags::ZERO), 0);
    assert_eq!(cpu.get_flag(StatusFlags::NEGATIVE), 1);
}
