#![allow(dead_code, unused_imports)]
use nes_emulator::cpu::{StatusFlags, CPU, STACK_START};
use nes_emulator::instructions::{get_instruction, AddressingMode, Instruction};

fn ins(opcode: u8) -> Instruction {
    get_instruction(opcode).unwrap()
}

fn set_single_byte(cpu: &mut CPU, address: u16, byte: u8) {
    cpu.memory.write(address, byte);
}

fn set_multiple_bytes(cpu: &mut CPU, start_address: u16, bytes: &Vec<u8>) {
    for i in 0..bytes.len() {
        set_single_byte(cpu, start_address + i as u16, bytes[i]);
    }
}

fn set_byte_example(cpu: &mut CPU) {
    for i in 0..0xffff_u16 {
        let val = i.wrapping_add(1857).wrapping_mul(937) as u8;
        set_single_byte(cpu, i, val);
    }
}

fn get_example_byte(i: u16) -> u8 {
    i.wrapping_add(1857).wrapping_mul(937) as u8
}

#[test]
fn test_cmp() {
    let mut cpu = CPU::new();
    set_multiple_bytes(&mut cpu, 0, &vec![0, 5, 0, 20, 0, 10]);

    cpu.accumulator = 10;
    cpu.reg_x = 100;
    cpu.reg_y = 200;

    cpu.execute(ins(0xc9));

    assert_eq!(cpu.flags.bits(), 0b00000001);

    cpu.execute(ins(0xc9));

    assert_eq!(cpu.flags.bits(), 0b10000000);

    cpu.execute(ins(0xc9));

    assert_eq!(cpu.flags.bits(), 0b00000011);
}

#[test]
fn test_cpx() {
    let mut cpu = CPU::new();
    set_multiple_bytes(&mut cpu, 0, &vec![0, 5, 0, 20, 0, 10]);

    cpu.accumulator = 100;
    cpu.reg_x = 10;
    cpu.reg_y = 200;

    cpu.execute(ins(0xe0));

    assert_eq!(cpu.flags.bits(), 0b00000001);

    cpu.execute(ins(0xe0));

    assert_eq!(cpu.flags.bits(), 0b10000000);

    cpu.execute(ins(0xe0));

    assert_eq!(cpu.flags.bits(), 0b00000011);
}

#[test]
fn test_cpy() {
    let mut cpu = CPU::new();
    set_multiple_bytes(&mut cpu, 0, &vec![0, 5, 0, 20, 0, 10]);

    cpu.accumulator = 100;
    cpu.reg_x = 200;
    cpu.reg_y = 10;

    cpu.execute(ins(0xc0));

    assert_eq!(cpu.flags.bits(), 0b00000001);

    cpu.execute(ins(0xc0));

    assert_eq!(cpu.flags.bits(), 0b10000000);

    cpu.execute(ins(0xc0));

    assert_eq!(cpu.flags.bits(), 0b00000011);
}
