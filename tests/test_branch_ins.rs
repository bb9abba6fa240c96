#![allow(dead_code, unused_imports)]
use nes_emulator::cpu::{StatusFlags, CPU, STACK_START};
use nes_emulator::instructions::{get_instruction, AddressingMode, Instruction};

fn ins(opcode: u8) -> Instruction {
    get_instruction(opcode).unwrap()
}

fn set_single_byte(cpu: &mut CPU, address: u16, byte: u8) {
    cpu.memory.write(address, byte);
}

fn set_multiple_bytes(cpu: &mut CPU, start_address: u16, bytes: &Vec<u8>) {
    for i in 0..bytes.len() {
        set_single_byte(cpu, start_address + i as u16, bytes[i]);
    }
}

fn set_byte_example(cpu: &mut CPU) {
    for i in 0..0xffff_u16 {
        let val = i.wrapping_add(1857).wrapping_mul(937) as u8;
        set_single_byte(cpu, i, val);
    }
}

fn get_example_byte(i: u16) -> u8 {
    i.wrapping_add(1857).wrapping_mul(937) as u8
}

#[test]
fn test_bcs() {
    let mut cpu = CPU::new();

    cpu.set_flag(StatusFlags::CARRY, 1);
    set_multiple_bytes(&mut cpu, 2111, &vec![0, 0, 0, 3, 0, 0, 0, 0, 0xff, 0x10]);

    cpu.program_counter = 2111;
    cpu.execute(ins(0xb0));

    assert_eq!(cpu.cycle_count, 3);
    assert_eq!(cpu.program_counter, 2113);

    cpu.execute(ins(0xb0));

    assert_eq!(cpu.cycle_count, 6);
    assert_eq!(cpu.program_counter, 2113 + 2 + 3);

    cpu.execute(ins(0xb0));

    assert_eq!(cpu.cycle_count, 9);
    assert_eq!(cpu.program_counter, (2113 + 2 + 3) + 2 - 1);

    cpu.set_flag(StatusFlags::CARRY, 0);
    cpu.execute(ins(0xb0));

    assert_eq!(cpu.cycle_count, 11);
    assert_eq!(cpu.program_counter, (2113 + 2 + 3) + 2 - 1 + 2);
}

#[test]
fn test_bcc() {
    let mut cpu = CPU::new();

    cpu.set_flag(StatusFlags::CARRY, 0);
    set_multiple_bytes(&mut cpu, 2111, &vec![0, 0, 0, 3, 0, 0, 0, 0, 0xff, 0x10]);

    cpu.program_counter = 2111;
    cpu.execute(ins(0x90));

    assert_eq!(cpu.cycle_count, 3);
    assert_eq!(cpu.program_counter, 2113);

    cpu.execute(ins(0x90));

    assert_eq!(cpu.cycle_count, 6);
    assert_eq!(cpu.program_counter, 2113 + 2 + 3);

    cpu.execute(ins(0x90));

    assert_eq!(cpu.cycle_count, 9);
    assert_eq!(cpu.program_counter, (2113 + 2 + 3) + 2 - 1);

    cpu.set_flag(StatusFlags::CARRY, 1);
    cpu.execute(ins(0x90));

    assert_eq!(cpu.cycle_count, 11);
    assert_eq!(cpu.program_counter, (2113 + 2 + 3) + 2 - 1 + 2);
}

#[test]
fn test_beq() {
    let mut cpu = CPU::new();

    cpu.set_flag(StatusFlags::ZERO, 1);
    set_multiple_bytes(&mut cpu, 2111, &vec![0, 0, 0, 3, 0, 0, 0, 0, 0xff, 0x10]);

    cpu.program_counter = 2111;
    cpu.execute(ins(0xf0));

    assert_eq!(cpu.cycle_count, 3);
    assert_eq!(cpu.program_counter, 2113);

    cpu.execute(ins(0xf0));

    assert_eq!(cpu.cycle_count, 6);
    assert_eq!(cpu.program_counter, 2113 + 2 + 3);

    cpu.execute(ins(0xf0));

    assert_eq!(cpu.cycle_count, 9);
    assert_eq!(cpu.program_counter, (2113 + 2 + 3) + 2 - 1);

    cpu.set_flag(StatusFlags::ZERO, 0);
    cpu.execute(ins(0xf0));

    assert_eq!(cpu.cycle_count, 11);
    assert_eq!(cpu.program_counter, (2113 + 2 + 3) + 2 - 1 + 2);
}

#[test]
fn test_bne() {
    let mut cpu = CPU::new();

    cpu.set_flag(StatusFlags::ZERO, 0);
    set_multiple_bytes(&mut cpu, 2111, &vec![0, 0, 0, 3, 0, 0, 0, 0, 0xff, 0x10]);

    cpu.program_counter = 2111;
    cpu.execute(ins(0xd0));

    assert_eq!(cpu.cycle_count, 3);
    assert_eq!(cpu.program_counter, 2113);

    cpu.execute(ins(0xd0));

    assert_eq!(cpu.cycle_count, 6);
    assert_eq!(cpu.program_counter, 2113 + 2 + 3);

    cpu.execute(ins(0xd0));

    assert_eq!(cpu.cycle_count, 9);
    assert_eq!(cpu.program_counter, (2113 + 2 + 3) + 2 - 1);

    cpu.set_flag(StatusFlags::ZERO, 1);
    cpu.execute(ins(0xd0));

    assert_eq!(cpu.cycle_count, 11);
    assert_eq!(cpu.program_counter, (2113 + 2 + 3) + 2 - 1 + 2);
}

#[test]
fn test_bmi() {
    let mut cpu = CPU::new();

    cpu.set_flag(StatusFlags::NEGATIVE, 1);
    set_multiple_bytes(&mut cpu, 2111, &vec![0, 0, 0, 3, 0, 0, 0, 0, 0xff, 0x10]);

    cpu.program_counter = 2111;
    cpu.execute(ins(0x30));

    assert_eq!(cpu.cycle_count, 3);
    assert_eq!(cpu.program_counter, 2113);

    cpu.execute(ins(0x30));

    assert_eq!(cpu.cycle_count, 6);
    assert_eq!(cpu.program_counter, 2113 + 2 + 3);

    cpu.execute(ins(0x30));

    assert_eq!(cpu.cycle_count, 9);
    assert_eq!(cpu.program_counter, (2113 + 2 + 3) + 2 - 1);

    cpu.set_flag(StatusFlags::NEGATIVE, 0);
    cpu.execute(ins(0x30));

    assert_eq!(cpu.cycle_count, 11);
    assert_eq!(cpu.program_counter, (2113 + 2 + 3) + 2 - 1 + 2);
}

#[test]
fn test_bpl() {
    let mut cpu = CPU::new();

    cpu.set_flag(StatusFlags::NEGATIVE, 0);
    set_multiple_bytes(&mut cpu, 2111, &vec![0, 0, 0, 3, 0, 0, 0, 0, 0xff, 0x10]);

    cpu.program_counter = 2111;
    cpu.execute(ins(0x10));

    assert_eq!(cpu.cycle_count, 3);
    assert_eq!(cpu.program_counter, 2113);

    cpu.execute(ins(0x10));

    assert_eq!(cpu.cycle_count, 6);
    assert_eq!(cpu.program_counter, 2113 + 2 + 3);

    cpu.execute(ins(0x10));

    assert_eq!(cpu.cycle_count, 9);
    assert_eq!(cpu.program_counter, (2113 + 2 + 3) + 2 - 1);

    cpu.set_flag(StatusFlags::NEGATIVE, 1);
    cpu.execute(ins(0x10));

    assert_eq!(cpu.cycle_count, 11);
    assert_eq!(cpu.program_counter, (2113 + 2 + 3) + 2 - 1 + 2);
}

#[test]
fn test_bvc() {
    let mut cpu = CPU::new();

    cpu.set_flag(StatusFlags::OVERFLOW, 0);
    set_multiple_bytes(&mut cpu, 2111, &vec![0, 0, 0, 3, 0, 0, 0, 0, 0xff, 0x10]);

    cpu.program_counter = 2111;
    cpu.execute(ins(0x50));

    assert_eq!(cpu.cycle_count, 3);
    assert_eq!(cpu.program_counter, 2113);

    cpu.execute(ins(0x50));

    assert_eq!(cpu.cycle_count, 6);
    assert_eq!(cpu.program_counter, 2113 + 2 + 3);

    cpu.execute(ins(0x50));

    assert_eq!(cpu.cycle_count, 9);
    assert_eq!(cpu.program_counter, (2113 + 2 + 3) + 2 - 1);

    cpu.set_flag(StatusFlags::OVERFLOW, 1);
    cpu.execute(ins(0x50));

    assert_eq!(cpu.cycle_count, 11);
    assert_eq!(cpu.program_counter, (2113 + 2 + 3) + 2 - 1 + 2);
}

#[test]
fn test_bvs() {
    let mut cpu = CPU::new();

    cpu.set_flag(StatusFlags::OVERFLOW, 1);
    set_multiple_bytes(&mut cpu, 2111, &vec![0, 0, 0, 3, 0, 0, 0, 0, 0xff, 0x10]);

    cpu.program_counter = 2111;
    cpu.execute(ins(0x70));

    assert_eq!(cpu.cycle_count, 3);
    assert_eq!(cpu.program_counter, 2113);

    cpu.execute(ins(0x70));

    assert_eq!(cpu.cycle_count, 6);
    assert_eq!(cpu.program_counter, 2113 + 2 + 3);

    cpu.execute(ins(0x70));

    assert_eq!(cpu.cycle_count, 9);
    assert_eq!(cpu.program_counter, (2113 + 2 + 3) + 2 - 1);

    cpu.set_flag(StatusFlags::OVERFLOW, 0);
    cpu.execute(ins(0x70));

    assert_eq!(cpu.cycle_count, 11);
    assert_eq!(cpu.program_counter, (2113 + 2 + 3) + 2 - 1 + 2);
}
