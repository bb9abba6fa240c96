//! The processor: register file, addressing modes, instruction semantics and interrupts.
//!
//! An opcode without a table entry executes as a one-byte, two-cycle no-operation.

use vstd::prelude::*;
use crate::instructions::{decode, get_instruction, AddressingMode, Instruction, InstructionName};
use crate::memory_bus::{
    bus_read, bus_read16, bus_write, lemma_ram_write_other, lemma_ram_write_read, lemma_read_keeps_ram,
    next_addr, with_ppu, BusView, InterruptType, MemoryBus,
};
use crate::ppu::{advance, PpuView};
use crate::word;

verus! {

/// Base of the stack page.
pub const STACK_START: u16 = 0x100;

/// Where the address of the non-maskable interrupt handler is stored.
pub const NMI_VECTOR: u16 = 0xfffa;

/// Where the reset address is stored.
pub const RESET_VECTOR: u16 = 0xfffc;

/// Where the address of the break handler is stored.
pub const BRK_VECTOR: u16 = 0xfffe;

/// Processor cycles in one video frame.
pub const FRAME_CYCLES: usize = 29781;

/// The processor status byte.
#[derive(Debug, Clone, Copy, PartialEq, Eq, Structural)]
pub struct StatusFlags {
    pub bits: u8,
}

impl StatusFlags {
    pub const CARRY: u8 = 0b0000_0001;
    pub const ZERO: u8 = 0b0000_0010;
    pub const INTERRUPT_DISABLE: u8 = 0b0000_0100;
    pub const DECIMAL: u8 = 0b0000_1000;
    pub const BREAK: u8 = 0b0001_0000;
    pub const BREAK2_U: u8 = 0b0010_0000;
    pub const OVERFLOW: u8 = 0b0100_0000;
    pub const NEGATIVE: u8 = 0b1000_0000;

    pub fn from_bits_truncate(bits: u8) -> (r: StatusFlags)
        ensures
            r.bits == bits,
    {
        StatusFlags { bits }
    }

    pub fn bits(&self) -> (r: u8)
        ensures
            r == self.bits,
    {
        self.bits
    }

    /// Clears every flag.
    pub fn clear(&mut self)
        ensures
            final(self).bits == 0,
    {
        self.bits = 0;
    }
}

/// `p` with the bits of `mask` set when `on`, cleared otherwise.
pub open spec fn with_flag(p: u8, mask: u8, on: bool) -> u8 {
    if on { p | mask } else { p & !mask }
}

/// `p` with Zero and Negative set from `v`.
pub open spec fn zn(p: u8, v: u8) -> u8 {
    with_flag(with_flag(p, 0x02, v == 0), 0x80, v & 0x80 != 0)
}

pub open spec fn flag(p: u8, mask: u8) -> bool {
    p & mask == mask
}

/// The processor and everything it can reach, as plain values.
pub struct CpuView {
    pub a: u8,
    pub x: u8,
    pub y: u8,
    pub sp: u8,
    pub p: u8,
    pub pc: u16,
    pub cycles: nat,
    pub bus: BusView,
}

/// A bus read from the processor's side.
pub open spec fn cpu_read(s: CpuView, addr: u16) -> (u8, CpuView) {
    (bus_read(s.bus, addr).0, CpuView { bus: bus_read(s.bus, addr).1, ..s })
}

pub open spec fn cpu_read16(s: CpuView, addr: u16) -> (u16, CpuView) {
    (bus_read16(s.bus, addr).0, CpuView { bus: bus_read16(s.bus, addr).1, ..s })
}

pub open spec fn cpu_write(s: CpuView, addr: u16, v: u8) -> CpuView {
    CpuView { bus: bus_write(s.bus, addr, v), ..s }
}

/// Reads the byte at the program counter and steps past it.
pub open spec fn fetch8(s: CpuView) -> (u8, CpuView) {
    let (v, s1) = cpu_read(s, s.pc);
    (v, CpuView { pc: next_addr(s.pc), ..s1 })
}

/// Reads the little-endian word at the program counter and steps past it.
pub open spec fn fetch16(s: CpuView) -> (u16, CpuView) {
    let (lo, s1) = fetch8(s);
    let (hi, s2) = fetch8(s1);
    (word(hi, lo), s2)
}

pub open spec fn is_zero_page_mode(mode: AddressingMode) -> bool {
    mode == AddressingMode::ZeroPage || mode == AddressingMode::ZeroPageX || mode
        == AddressingMode::ZeroPageY || mode == AddressingMode::IndexedIndirect || mode
        == AddressingMode::IndirectIndexed
}

pub open spec fn is_absolute_mode(mode: AddressingMode) -> bool {
    mode == AddressingMode::Absolute || mode == AddressingMode::AbsoluteX || mode
        == AddressingMode::AbsoluteY || mode == AddressingMode::Indirect
}

/// The effective address of a one-byte operand.
pub open spec fn addr8(s: CpuView, operand: u8, mode: AddressingMode) -> (u16, CpuView) {
    match mode {
        AddressingMode::ZeroPageX => (operand.wrapping_add(s.x) as u16, s),
        AddressingMode::ZeroPageY => (operand.wrapping_add(s.y) as u16, s),
        AddressingMode::IndexedIndirect => {
            let ptr = operand.wrapping_add(s.x);
            let (lo, s1) = cpu_read(s, ptr as u16);
            let (hi, s2) = cpu_read(s1, ptr.wrapping_add(1) as u16);
            (word(hi, lo), s2)
        },
        AddressingMode::IndirectIndexed => {
            let (lo, s1) = cpu_read(s, operand as u16);
            let (hi, s2) = cpu_read(s1, operand.wrapping_add(1) as u16);
            (word(hi, lo).wrapping_add(s.y as u16), s2)
        },
        _ => (operand as u16, s),
    }
}

/// The address the indirect jump reads its target's high byte from: the next byte, except
/// that a pointer at the end of a page wraps to the start of the same page.
pub open spec fn indirect_hi_addr(ptr: u16) -> u16 {
    if ptr % 256 == 255 { (ptr - 255) as u16 } else { (ptr + 1) as u16 }
}

/// The effective address of a two-byte operand.
pub open spec fn addr16(s: CpuView, operand: u16, mode: AddressingMode) -> (u16, CpuView) {
    match mode {
        AddressingMode::AbsoluteX => (operand.wrapping_add(s.x as u16), s),
        AddressingMode::AbsoluteY => (operand.wrapping_add(s.y as u16), s),
        AddressingMode::Indirect => {
            let (lo, s1) = cpu_read(s, operand);
            let (hi, s2) = cpu_read(s1, indirect_hi_addr(operand));
            (word(hi, lo), s2)
        },
        _ => (operand, s),
    }
}

/// Fetches the operand bytes of a memory mode and resolves its effective address.
pub open spec fn operand_addr(s: CpuView, mode: AddressingMode) -> (u16, CpuView) {
    if is_zero_page_mode(mode) {
        let (b, s1) = fetch8(s);
        addr8(s1, b, mode)
    } else {
        let (w, s1) = fetch16(s);
        addr16(s1, w, mode)
    }
}

/// The operand value of an instruction: inline for Immediate, else read at its address.
pub open spec fn operand_value(s: CpuView, mode: AddressingMode) -> (u8, CpuView) {
    if mode == AddressingMode::Immediate {
        fetch8(s)
    } else {
        let (addr, s1) = operand_addr(s, mode);
        cpu_read(s1, addr)
    }
}

pub open spec fn is_value_mode(mode: AddressingMode) -> bool {
    mode == AddressingMode::Immediate || is_zero_page_mode(mode) || is_absolute_mode(mode)
}

pub open spec fn is_memory_mode(mode: AddressingMode) -> bool {
    is_zero_page_mode(mode) || is_absolute_mode(mode)
}

/// Pushes a byte: it goes to the stack page at the stack pointer, which then moves down.
pub open spec fn push(s: CpuView, v: u8) -> CpuView {
    let s1 = cpu_write(s, (0x100 + s.sp) as u16, v);
    CpuView { sp: ((s.sp + 255) % 256) as u8, ..s1 }
}

/// Pulls a byte: the stack pointer moves up, then the byte there is read.
pub open spec fn pull(s: CpuView) -> (u8, CpuView) {
    let sp = ((s.sp + 1) % 256) as u8;
    cpu_read(CpuView { sp, ..s }, (0x100 + sp) as u16)
}

/// Pushes a word, high byte first.
pub open spec fn push16(s: CpuView, w: u16) -> CpuView {
    push(push(s, (w / 256) as u8), (w % 256) as u8)
}

/// Pulls a word, low byte first.
pub open spec fn pull16(s: CpuView) -> (u16, CpuView) {
    let (lo, s1) = pull(s);
    let (hi, s2) = pull(s1);
    (word(hi, lo), s2)
}

/// The result of adding `v` and the carry to the accumulator, with Carry and Overflow.
pub open spec fn adc_result(a: u8, v: u8, p: u8) -> (u8, u8) {
    let (result, fb) = adc_carry_overflow(a, v, p);
    (result, zn(fb, result))
}

/// The 8-bit sum of the accumulator, `v` and the carry, and the flags with only Carry
/// (sum above 0xFF) and Overflow (sign of the result differs from both inputs) updated.
pub open spec fn adc_carry_overflow(a: u8, v: u8, p: u8) -> (u8, u8) {
    let sum = a as int + v as int + (if flag(p, 0x01) { 1int } else { 0int });
    let result = (sum % 256) as u8;
    let fa = with_flag(p, 0x01, sum > 255);
    (result, with_flag(fa, 0x40, (v ^ result) & (result ^ a) & 0x80 != 0))
}

/// The flags after comparing register `r` with `v`.
pub open spec fn compare_flags(p: u8, r: u8, v: u8) -> u8 {
    let fa = with_flag(p, 0x01, r >= v);
    let fb = with_flag(fa, 0x02, r == v);
    with_flag(fb, 0x80, r.wrapping_sub(v) & 0x80 != 0)
}

/// Shift and rotate: the result and the carry out, given the carry in.
pub open spec fn shift_result(name: InstructionName, v: u8, carry_in: bool) -> (u8, bool) {
    match name {
        InstructionName::ASL => (((v as int * 2) % 256) as u8, v & 0x80 != 0),
        InstructionName::LSR => (v / 2, v & 1 != 0),
        InstructionName::ROL => (
            (((v as int * 2) % 256) + (if carry_in { 1int } else { 0int })) as u8,
            v & 0x80 != 0,
        ),
        _ => ((v / 2 + (if carry_in { 128int } else { 0int })) as u8, v & 1 != 0),
    }
}

/// Whether a branch instruction is taken under flags `p`.
pub open spec fn branch_taken(name: InstructionName, p: u8) -> bool {
    match name {
        InstructionName::BCC => !flag(p, 0x01),
        InstructionName::BCS => flag(p, 0x01),
        InstructionName::BNE => !flag(p, 0x02),
        InstructionName::BEQ => flag(p, 0x02),
        InstructionName::BPL => !flag(p, 0x80),
        InstructionName::BMI => flag(p, 0x80),
        InstructionName::BVC => !flag(p, 0x40),
        _ => flag(p, 0x40),
    }
}

pub open spec fn is_branch(name: InstructionName) -> bool {
    name == InstructionName::BCC || name == InstructionName::BCS || name == InstructionName::BNE
        || name == InstructionName::BEQ || name == InstructionName::BPL || name
        == InstructionName::BMI || name == InstructionName::BVC || name == InstructionName::BVS
}

/// `pc` moved by the signed offset `off`.
pub open spec fn branch_target(pc: u16, off: u8) -> u16 {
    if off >= 128 {
        pc.wrapping_sub((256 - off) as u16)
    } else {
        pc.wrapping_add(off as u16)
    }
}

/// The addressing modes an instruction's semantics can be carried out with.
pub open spec fn mode_fits(ins: Instruction) -> bool {
    match ins.name {
        InstructionName::LDA | InstructionName::LDX | InstructionName::LDY | InstructionName::ADC
        | InstructionName::SBC | InstructionName::AND | InstructionName::ORA | InstructionName::EOR
        | InstructionName::BIT | InstructionName::CMP | InstructionName::CPX
        | InstructionName::CPY => is_value_mode(ins.mode),
        InstructionName::STA | InstructionName::STX | InstructionName::STY | InstructionName::INC
        | InstructionName::DEC => is_memory_mode(ins.mode),
        InstructionName::ASL | InstructionName::LSR | InstructionName::ROL
        | InstructionName::ROR => ins.mode == AddressingMode::Accumulator || is_memory_mode(ins.mode),
        InstructionName::JMP => ins.mode == AddressingMode::Absolute || ins.mode == AddressingMode::Indirect,
        _ => true,
    }
}

/// The state after an instruction's opcode has been consumed: the program counter is past
/// it and the base cycle cost is counted.
pub open spec fn begin(s: CpuView, ins: Instruction) -> CpuView {
    CpuView { pc: next_addr(s.pc), cycles: s.cycles + ins.cycles as nat, ..s }
}

pub open spec fn set_a(s: CpuView, v: u8) -> CpuView {
    CpuView { a: v, p: zn(s.p, v), ..s }
}

pub open spec fn set_x(s: CpuView, v: u8) -> CpuView {
    CpuView { x: v, p: zn(s.p, v), ..s }
}

pub open spec fn set_y(s: CpuView, v: u8) -> CpuView {
    CpuView { y: v, p: zn(s.p, v), ..s }
}

pub open spec fn set_p(s: CpuView, p: u8) -> CpuView {
    CpuView { p, ..s }
}

/// Read-modify-write of memory: reads the operand, writes `f` of it back to the same address.
pub open spec fn modify_memory(s: CpuView, mode: AddressingMode, name: InstructionName) -> CpuView {
    let (addr, s1) = operand_addr(s, mode);
    let (v, s2) = cpu_read(s1, addr);
    let (r, p) = modify_result(name, v, s2.p);
    set_p(cpu_write(s2, addr, r), p)
}

/// The result of a read-modify-write instruction on `v`, and the flags after it.
pub open spec fn modify_result(name: InstructionName, v: u8, p: u8) -> (u8, u8) {
    if name == InstructionName::INC {
        (v.wrapping_add(1), zn(p, v.wrapping_add(1)))
    } else if name == InstructionName::DEC {
        (v.wrapping_sub(1), zn(p, v.wrapping_sub(1)))
    } else {
        let (r, c) = shift_result(name, v, flag(p, 0x01));
        (r, zn(with_flag(p, 0x01, c), r))
    }
}

/// The flag a flag instruction changes, and whether it sets it.
pub open spec fn flag_op(name: InstructionName) -> (u8, bool) {
    match name {
        InstructionName::CLC => (0x01, false),
        InstructionName::CLD => (0x08, false),
        InstructionName::CLI => (0x04, false),
        InstructionName::CLV => (0x40, false),
        InstructionName::SEC => (0x01, true),
        InstructionName::SED => (0x08, true),
        _ => (0x04, true),
    }
}

/// What an instruction does once its opcode has been consumed.
#[verifier::opaque]
pub open spec fn op_spec(s: CpuView, ins: Instruction) -> CpuView {
    let mode = ins.mode;
    match ins.name {
        InstructionName::LDA => set_a(operand_value(s, mode).1, operand_value(s, mode).0),
        InstructionName::LDX => set_x(operand_value(s, mode).1, operand_value(s, mode).0),
        InstructionName::LDY => set_y(operand_value(s, mode).1, operand_value(s, mode).0),
        InstructionName::STA => cpu_write(operand_addr(s, mode).1, operand_addr(s, mode).0, s.a),
        InstructionName::STX => cpu_write(operand_addr(s, mode).1, operand_addr(s, mode).0, s.x),
        InstructionName::STY => cpu_write(operand_addr(s, mode).1, operand_addr(s, mode).0, s.y),
        InstructionName::TAX => set_x(s, s.a),
        InstructionName::TAY => set_y(s, s.a),
        InstructionName::TXA => set_a(s, s.x),
        InstructionName::TYA => set_a(s, s.y),
        InstructionName::TSX => set_x(s, s.sp),
        InstructionName::TXS => CpuView { sp: s.x, ..s },
        InstructionName::ADC => {
            let (v, s1) = operand_value(s, mode);
            let (r, p) = adc_result(s1.a, v, s1.p);
            CpuView { a: r, p, ..s1 }
        },
        InstructionName::SBC => {
            let (v, s1) = operand_value(s, mode);
            let (r, p) = adc_result(s1.a, (255 - v) as u8, s1.p);
            CpuView { a: r, p, ..s1 }
        },
        InstructionName::INC | InstructionName::DEC => modify_memory(s, mode, ins.name),
        InstructionName::INX => set_x(s, s.x.wrapping_add(1)),
        InstructionName::INY => set_y(s, s.y.wrapping_add(1)),
        InstructionName::DEX => set_x(s, s.x.wrapping_sub(1)),
        InstructionName::DEY => set_y(s, s.y.wrapping_sub(1)),
        InstructionName::ASL | InstructionName::LSR | InstructionName::ROL | InstructionName::ROR => {
            if mode == AddressingMode::Accumulator {
                let (r, c) = shift_result(ins.name, s.a, flag(s.p, 0x01));
                CpuView { a: r, p: zn(with_flag(s.p, 0x01, c), r), ..s }
            } else {
                modify_memory(s, mode, ins.name)
            }
        },
        InstructionName::AND => {
            let (v, s1) = operand_value(s, mode);
            set_a(s1, s1.a & v)
        },
        InstructionName::ORA => {
            let (v, s1) = operand_value(s, mode);
            set_a(s1, s1.a | v)
        },
        InstructionName::EOR => {
            let (v, s1) = operand_value(s, mode);
            set_a(s1, s1.a ^ v)
        },
        InstructionName::BIT => {
            let (v, s1) = operand_value(s, mode);
            let fa = with_flag(s1.p, 0x02, s1.a & v == 0);
            let fb = with_flag(fa, 0x40, v & 0x40 != 0);
            set_p(s1, with_flag(fb, 0x80, v & 0x80 != 0))
        },
        InstructionName::CMP => {
            let (v, s1) = operand_value(s, mode);
            set_p(s1, compare_flags(s1.p, s1.a, v))
        },
        InstructionName::CPX => {
            let (v, s1) = operand_value(s, mode);
            set_p(s1, compare_flags(s1.p, s1.x, v))
        },
        InstructionName::CPY => {
            let (v, s1) = operand_value(s, mode);
            set_p(s1, compare_flags(s1.p, s1.y, v))
        },
        InstructionName::BCC | InstructionName::BCS | InstructionName::BNE | InstructionName::BEQ
        | InstructionName::BPL | InstructionName::BMI | InstructionName::BVC
        | InstructionName::BVS => {
            if branch_taken(ins.name, s.p) {
                let (off, s1) = fetch8(s);
                CpuView { pc: branch_target(s1.pc, off), cycles: s1.cycles + 1nat, ..s1 }
            } else {
                CpuView { pc: next_addr(s.pc), ..s }
            }
        },
        InstructionName::JMP => {
            let (addr, s1) = operand_addr(s, mode);
            CpuView { pc: addr, ..s1 }
        },
        InstructionName::JSR => {
            let (target, s1) = fetch16(s);
            let s2 = push16(s1, s1.pc.wrapping_sub(1));
            CpuView { pc: target, ..s2 }
        },
        InstructionName::RTI => {
            let (f, s1) = pull(s);
            let (w, s2) = pull16(set_p(s1, (f & 0xef) | 0x20));
            CpuView { pc: w, ..s2 }
        },
        InstructionName::RTS => {
            let (w, s1) = pull16(s);
            CpuView { pc: next_addr(w), ..s1 }
        },
        InstructionName::BRK => {
            let s1 = push16(s, next_addr(s.pc));
            let s2 = push(s1, s1.p | 0x30);
            let (w, s3) = cpu_read16(set_p(s2, s2.p | 0x04), 0xfffe);
            CpuView { pc: w, ..s3 }
        },
        InstructionName::PHA => push(s, s.a),
        InstructionName::PHP => push(s, s.p | 0x30),
        InstructionName::PLA => {
            let (v, s1) = pull(s);
            set_a(s1, v)
        },
        InstructionName::PLP => {
            let (f, s1) = pull(s);
            set_p(s1, (f & 0xef) | 0x20)
        },
        InstructionName::CLC | InstructionName::CLD | InstructionName::CLI | InstructionName::CLV
        | InstructionName::SEC | InstructionName::SED | InstructionName::SEI => {
            let (mask, on) = flag_op(ins.name);
            set_p(s, with_flag(s.p, mask, on))
        },
        InstructionName::NOP => s,
    }
}

/// One instruction, given its descriptor, from the fetch of its opcode on.
pub open spec fn exec_spec(s: CpuView, ins: Instruction) -> CpuView {
    op_spec(begin(s, ins), ins)
}

/// Servicing the non-maskable interrupt: the pending request is taken, the program counter
/// and the flags (Break clear, bit 5 set) are pushed, Interrupt-Disable is set, the picture
/// unit runs two dots, and the program counter is loaded from the vector at 0xFFFA.
pub open spec fn nmi_spec(s: CpuView) -> CpuView {
    let s0 = CpuView {
        bus: with_ppu(s.bus, PpuView { interrupt: None, ..s.bus.ppu }),
        ..s
    };
    let s1 = push16(s0, s0.pc);
    let s2 = push(s1, (s1.p & 0xef) | 0x20);
    let s3 = CpuView {
        p: s2.p | 0x04,
        bus: with_ppu(s2.bus, advance(s2.bus.ppu, 2)),
        ..s2
    };
    let (w, s4) = cpu_read16(s3, NMI_VECTOR);
    CpuView { pc: w, ..s4 }
}

/// One instruction: the opcode at the program counter is read and carried out; one without
/// a table entry only steps past itself and takes two cycles.
pub open spec fn step_spec(s: CpuView) -> CpuView {
    let (op, s1) = cpu_read(s, s.pc);
    match decode(op) {
        Some(ins) => exec_spec(s1, ins),
        None => CpuView { pc: next_addr(s1.pc), cycles: s1.cycles + 2, ..s1 },
    }
}

/// One step of the machine: a pending interrupt is serviced, one instruction runs, and the
/// picture unit catches up by three dots per cycle the instruction took.
pub open spec fn run_once_spec(s: CpuView) -> CpuView {
    let s1 = if s.bus.ppu.interrupt == Some(InterruptType::NonMaskable) { nmi_spec(s) } else { s };
    let s2 = step_spec(s1);
    CpuView {
        bus: with_ppu(s2.bus, advance(s2.bus.ppu, (3 * (s2.cycles - s1.cycles)) as nat)),
        ..s2
    }
}

/// `n` machine steps.
pub open spec fn run_spec(s: CpuView, n: nat) -> CpuView
    decreases n,
{
    if n == 0 { s } else { run_spec(run_once_spec(s), (n - 1) as nat) }
}

/// An instruction takes at least its base cycle cost, and at most one more.
proof fn lemma_exec_cycles(s: CpuView, ins: Instruction)
    ensures
        s.cycles + ins.cycles <= exec_spec(s, ins).cycles <= s.cycles + ins.cycles + 1,
{
    reveal(op_spec);
}

/// `vals` pushed in order.
pub open spec fn push_all(s: CpuView, vals: Seq<u8>) -> CpuView
    decreases vals.len(),
{
    if vals.len() == 0 {
        s
    } else {
        push(push_all(s, vals.drop_last()), vals.last())
    }
}

/// Each push moves the stack pointer down by one, modulo 256: after `n` pushes it stands `n`
/// below where it started, so 256 pushes bring it back, wrapping from 0x00 to 0xFF once.
pub proof fn lemma_push_all_sp(s: CpuView, vals: Seq<u8>)
    ensures
        push_all(s, vals).sp as int == (s.sp as int - vals.len()) % 256,
        vals.len() == 256 ==> push_all(s, vals).sp == s.sp,
    decreases vals.len(),
{
    if vals.len() > 0 {
        lemma_push_all_sp(s, vals.drop_last());
    }
}

proof fn lemma_op_pha(s: CpuView, ins: Instruction)
    requires
        ins.name == InstructionName::PHA,
    ensures
        op_spec(s, ins) == push(s, s.a),
{
    reveal(op_spec);
}

proof fn lemma_op_pla(s: CpuView, ins: Instruction)
    requires
        ins.name == InstructionName::PLA,
    ensures
        op_spec(s, ins) == set_a(pull(s).1, pull(s).0),
{
    reveal(op_spec);
}

proof fn lemma_op_jsr(s: CpuView, ins: Instruction)
    requires
        ins.name == InstructionName::JSR,
    ensures
        op_spec(s, ins) == (CpuView {
            pc: fetch16(s).0,
            ..push16(fetch16(s).1, fetch16(s).1.pc.wrapping_sub(1))
        }),
{
    reveal(op_spec);
}

proof fn lemma_op_rts(s: CpuView, ins: Instruction)
    requires
        ins.name == InstructionName::RTS,
    ensures
        op_spec(s, ins) == (CpuView { pc: next_addr(pull16(s).0), ..pull16(s).1 }),
{
    reveal(op_spec);
}

/// PHA then PLA gives back the accumulator; the stack pointer goes down by one and back.
pub proof fn lemma_pha_pla(s: CpuView, pha: Instruction, pla: Instruction)
    requires
        s.bus.wf(),
        pha.name == InstructionName::PHA,
        pla.name == InstructionName::PLA,
    ensures
        exec_spec(s, pha).sp == s.sp.wrapping_sub(1),
        exec_spec(exec_spec(s, pha), pla).sp == s.sp,
        exec_spec(exec_spec(s, pha), pla).a == s.a,
{
    let s0 = begin(s, pha);
    lemma_op_pha(s0, pha);
    let s1 = exec_spec(s, pha);
    lemma_op_pla(begin(s1, pla), pla);
    lemma_ram_write_read(s0.bus, (0x100 + s.sp) as u16, s.a);
}

/// JSR pushes the address of its last byte and jumps; RTS then returns to the byte after
/// the JSR, with the stack pointer back where it was.
pub proof fn lemma_jsr_rts(s: CpuView, jsr: Instruction, rts: Instruction)
    requires
        s.bus.wf(),
        jsr.name == InstructionName::JSR,
        rts.name == InstructionName::RTS,
    ensures
        exec_spec(s, jsr).pc == fetch16(begin(s, jsr)).0,
        exec_spec(s, jsr).sp == s.sp.wrapping_sub(2),
        exec_spec(exec_spec(s, jsr), rts).pc == s.pc.wrapping_add(3),
        exec_spec(exec_spec(s, jsr), rts).sp == s.sp,
{
    let s0 = begin(s, jsr);
    lemma_op_jsr(s0, jsr);
    let (lo, s1) = fetch8(s0);
    lemma_read_keeps_ram(s0.bus, s0.pc);
    let (hi, s2) = fetch8(s1);
    lemma_read_keeps_ram(s1.bus, s1.pc);
    let ret = s2.pc.wrapping_sub(1);
    let a1 = (0x100 + s2.sp) as u16;
    let fa = push(s2, (ret / 256) as u8);
    lemma_ram_write_read(s2.bus, a1, (ret / 256) as u8);
    let a2 = (0x100 + fa.sp) as u16;
    let fb = push(fa, (ret % 256) as u8);
    lemma_ram_write_read(fa.bus, a2, (ret % 256) as u8);
    lemma_ram_write_other(fa.bus, a2, a1, (ret % 256) as u8);
    let j = exec_spec(s, jsr);
    assert(j.bus == fb.bus && j.sp == fb.sp);
    let r0 = begin(j, rts);
    lemma_op_rts(r0, rts);
    let (l2, q1) = pull(r0);
    lemma_read_keeps_ram(r0.bus, a2);
    let (h2, q2) = pull(q1);
    assert(l2 == (ret % 256) as u8);
    assert(q1.bus.ram == r0.bus.ram);
    assert(bus_read(q1.bus, a1).0 == q1.bus.ram[(a1 % 0x800) as int]) by {
        reveal(bus_read);
    }
    assert(bus_read(fb.bus, a1).0 == fb.bus.ram[(a1 % 0x800) as int]) by {
        reveal(bus_read);
    }
    assert(h2 == (ret / 256) as u8);
    assert(word(h2, l2) == ret);
}

/// A branch costs its two base cycles, and one more when taken; a taken branch moves the
/// program counter from the byte after its operand by the signed operand, a branch not taken
/// leaves it after the operand.
pub proof fn lemma_branch_timing(s: CpuView, ins: Instruction)
    requires
        is_branch(ins.name),
        ins.cycles == 2,
    ensures
        branch_taken(ins.name, s.p) ==> exec_spec(s, ins).cycles == s.cycles + 3,
        branch_taken(ins.name, s.p) ==> exec_spec(s, ins).pc == branch_target(
            next_addr(next_addr(s.pc)),
            bus_read(s.bus, next_addr(s.pc)).0,
        ),
        !branch_taken(ins.name, s.p) ==> exec_spec(s, ins).cycles == s.cycles + 2,
        !branch_taken(ins.name, s.p) ==> exec_spec(s, ins).pc == next_addr(next_addr(s.pc)),
{
    reveal(op_spec);
}

/// The indirect jump through a pointer at the last byte of a page reads the target's high
/// byte from the first byte of that same page.
pub proof fn lemma_indirect_page_wrap(s: CpuView, ptr: u16)
    requires
        ptr % 256 == 255,
    ensures
        addr16(s, ptr, AddressingMode::Indirect) == (
            word(
                cpu_read(cpu_read(s, ptr).1, (ptr - 255) as u16).0,
                cpu_read(s, ptr).0,
            ),
            cpu_read(cpu_read(s, ptr).1, (ptr - 255) as u16).1,
        ),
{
}

fn shift_exec(name: InstructionName, v: u8, carry_in: bool) -> (r: (u8, bool))
    ensures
        r == shift_result(name, v, carry_in),
{
    match name {
        InstructionName::ASL => ((((v as u16) * 2) % 256) as u8, v & 0x80 != 0),
        InstructionName::LSR => (v / 2, v & 1 != 0),
        InstructionName::ROL => (((((v as u16) * 2) % 256) + (if carry_in { 1u16 } else { 0u16 })) as u8, v & 0x80 != 0),
        _ => ((v / 2 + (if carry_in { 128u8 } else { 0u8 })), v & 1 != 0),
    }
}

fn zn_exec(p: u8, v: u8) -> (r: u8)
    ensures
        r == zn(p, v),
{
    with_flag_exec(with_flag_exec(p, 0x02, v == 0), 0x80, v & 0x80 != 0)
}

fn modify_exec(name: InstructionName, v: u8, p: u8) -> (r: (u8, u8))
    ensures
        r == modify_result(name, v, p),
{
    if name == InstructionName::INC {
        (v.wrapping_add(1), zn_exec(p, v.wrapping_add(1)))
    } else if name == InstructionName::DEC {
        (v.wrapping_sub(1), zn_exec(p, v.wrapping_sub(1)))
    } else {
        let (r, c) = shift_exec(name, v, p & 0x01 == 0x01);
        (r, zn_exec(with_flag_exec(p, 0x01, c), r))
    }
}

fn compare_exec(p: u8, r: u8, v: u8) -> (out: u8)
    ensures
        out == compare_flags(p, r, v),
{
    let fa = with_flag_exec(p, 0x01, r >= v);
    let fb = with_flag_exec(fa, 0x02, r == v);
    with_flag_exec(fb, 0x80, r.wrapping_sub(v) & 0x80 != 0)
}

fn branch_taken_exec(name: InstructionName, p: u8) -> (r: bool)
    ensures
        r == branch_taken(name, p),
{
    match name {
        InstructionName::BCC => p & 0x01 != 0x01,
        InstructionName::BCS => p & 0x01 == 0x01,
        InstructionName::BNE => p & 0x02 != 0x02,
        InstructionName::BEQ => p & 0x02 == 0x02,
        InstructionName::BPL => p & 0x80 != 0x80,
        InstructionName::BMI => p & 0x80 == 0x80,
        InstructionName::BVC => p & 0x40 != 0x40,
        _ => p & 0x40 == 0x40,
    }
}

fn with_flag_exec(p: u8, mask: u8, on: bool) -> (r: u8)
    ensures
        r == with_flag(p, mask, on),
{
    if on {
        p | mask
    } else {
        p & !mask
    }
}

/// The processor with the bus it drives.
#[derive(Debug)]
pub struct CPU {
    pub reg_x: u8,
    pub reg_y: u8,
    pub accumulator: u8,
    pub stack_pointer: u8,
    pub flags: StatusFlags,
    pub program_counter: u16,
    pub cycle_count: usize,
    pub memory: MemoryBus,
}

impl View for CPU {
    type V = CpuView;

    open spec fn view(&self) -> CpuView {
        CpuView {
            a: self.accumulator,
            x: self.reg_x,
            y: self.reg_y,
            sp: self.stack_pointer,
            p: self.flags.bits,
            pc: self.program_counter,
            cycles: self.cycle_count as nat,
            bus: self.memory@,
        }
    }
}

impl CPU {
    /// A processor at address 0 with cleared registers, an empty stack and a bus around a
    /// cartridge without data.
    pub fn new() -> (r: CPU)
        ensures
            r@.bus.wf(),
            r@.a == 0 && r@.x == 0 && r@.y == 0,
            r@.sp == 0xff,
            r@.p == 0,
            r@.pc == 0,
            r@.cycles == 0,
            r@.bus.ram == Seq::new(0x800, |i: int| 0u8),
            r@.bus.ppu.prg.len() == 0,
    {
        let memory = MemoryBus::new(crate::ppu::PPU::new(crate::cartridge::CartridgeROM::dummy()));
        CPU {
            reg_x: 0,
            reg_y: 0,
            accumulator: 0,
            stack_pointer: 0xff,
            flags: StatusFlags::from_bits_truncate(0),
            program_counter: 0,
            cycle_count: 0,
            memory,
        }
    }

    /// The power-on state: stack pointer 0xFD, Interrupt-Disable and the unused bit set,
    /// seven cycles already spent.
    pub fn new_program(mem_bus: MemoryBus) -> (r: CPU)
        requires
            mem_bus@.wf(),
        ensures
            r@.bus == mem_bus@,
            r@.a == 0 && r@.x == 0 && r@.y == 0,
            r@.sp == 0xfd,
            r@.p == 0x24,
            r@.pc == 0,
            r@.cycles == 7,
    {
        CPU {
            reg_x: 0,
            reg_y: 0,
            accumulator: 0,
            stack_pointer: 0xfd,
            flags: StatusFlags::from_bits_truncate(0x24),
            program_counter: 0,
            cycle_count: 7,
            memory: mem_bus,
        }
    }

    /// Loads the program counter from the reset vector.
    pub fn reset(&mut self)
        requires
            old(self)@.bus.wf(),
        ensures
            final(self)@ == (CpuView {
                pc: cpu_read16(old(self)@, RESET_VECTOR).0,
                ..cpu_read16(old(self)@, RESET_VECTOR).1
            }),
            final(self)@.bus.wf(),
    {
        self.program_counter = self.memory.read_16bit(RESET_VECTOR);
    }

    /// Sets (`bit == 1`) or clears (otherwise) the flags of `flag`.
    pub fn set_flag(&mut self, flag: u8, bit: u8)
        ensures
            final(self)@ == set_p(old(self)@, with_flag(old(self)@.p, flag, bit == 1)),
    {
        self.flags.bits = with_flag_exec(self.flags.bits, flag, bit == 1);
    }

    /// 1 when every flag of `flag` is set, else 0.
    pub fn get_flag(&self, flag: u8) -> (r: u8)
        ensures
            r == (if self@.p & flag == flag { 1u8 } else { 0u8 }),
    {
        if self.flags.bits & flag == flag {
            1
        } else {
            0
        }
    }

    /// Sets Zero and Negative from `val`.
    pub fn set_zn_flags(&mut self, val: u8)
        ensures
            final(self)@ == set_p(old(self)@, zn(old(self)@.p, val)),
    {
        let p = with_flag_exec(self.flags.bits, StatusFlags::ZERO, val == 0);
        self.flags.bits = with_flag_exec(p, StatusFlags::NEGATIVE, val & 0x80 != 0);
    }

    /// Reads the byte at the program counter and steps past it.
    pub fn mem_read_pc_u8(&mut self) -> (r: u8)
        requires
            old(self)@.bus.wf(),
        ensures
            (r, final(self)@) == fetch8(old(self)@),
            final(self)@.bus.wf(),
    {
        let v = self.memory.read(self.program_counter);
        self.program_counter = self.program_counter.wrapping_add(1);
        v
    }

    /// Reads the little-endian word at the program counter and steps past it.
    pub fn mem_read_pc_u16(&mut self) -> (r: u16)
        requires
            old(self)@.bus.wf(),
        ensures
            (r, final(self)@) == fetch16(old(self)@),
            final(self)@.bus.wf(),
    {
        let lo = self.mem_read_pc_u8();
        let hi = self.mem_read_pc_u8();
        crate::make_u16(hi, lo)
    }

    fn read_bus(&mut self, addr: u16) -> (r: u8)
        requires
            old(self)@.bus.wf(),
        ensures
            (r, final(self)@) == cpu_read(old(self)@, addr),
            final(self)@.bus.wf(),
    {
        self.memory.read(addr)
    }

    fn write_bus(&mut self, addr: u16, val: u8)
        requires
            old(self)@.bus.wf(),
        ensures
            final(self)@ == cpu_write(old(self)@, addr, val),
            final(self)@.bus.wf(),
    {
        self.memory.write(addr, val);
    }

    /// The effective address of the one-byte operand `address` in a zero-page mode.
    pub fn get_addr_8bit(&mut self, address: u8, mode: AddressingMode) -> (r: u16)
        requires
            old(self)@.bus.wf(),
            is_zero_page_mode(mode),
        ensures
            (r, final(self)@) == addr8(old(self)@, address, mode),
            final(self)@.bus.wf(),
    {
        match mode {
            AddressingMode::ZeroPageX => address.wrapping_add(self.reg_x) as u16,
            AddressingMode::ZeroPageY => address.wrapping_add(self.reg_y) as u16,
            AddressingMode::IndexedIndirect => {
                let ptr = address.wrapping_add(self.reg_x);
                let lo = self.read_bus(ptr as u16);
                let hi = self.read_bus(ptr.wrapping_add(1) as u16);
                crate::make_u16(hi, lo)
            },
            AddressingMode::IndirectIndexed => {
                let lo = self.read_bus(address as u16);
                let hi = self.read_bus(address.wrapping_add(1) as u16);
                crate::make_u16(hi, lo).wrapping_add(self.reg_y as u16)
            },
            _ => address as u16,
        }
    }

    /// The effective address of the two-byte operand `address` in an absolute or indirect
    /// mode, with the indirect jump's page-wrap quirk.
    pub fn get_addr_16bit(&mut self, address: u16, mode: AddressingMode) -> (r: u16)
        requires
            old(self)@.bus.wf(),
            is_absolute_mode(mode),
        ensures
            (r, final(self)@) == addr16(old(self)@, address, mode),
            final(self)@.bus.wf(),
    {
        match mode {
            AddressingMode::AbsoluteX => address.wrapping_add(self.reg_x as u16),
            AddressingMode::AbsoluteY => address.wrapping_add(self.reg_y as u16),
            AddressingMode::Indirect => {
                let lo = self.read_bus(address);
                let hi_addr = if address % 256 == 255 {
                    address - 255
                } else {
                    address + 1
                };
                let hi = self.read_bus(hi_addr);
                crate::make_u16(hi, lo)
            },
            _ => address,
        }
    }

    /// Reads the value a zero-page mode operand designates.
    pub fn read_8bit(&mut self, address: u8, mode: AddressingMode) -> (r: u8)
        requires
            old(self)@.bus.wf(),
            is_zero_page_mode(mode),
        ensures
            (r, final(self)@) == cpu_read(addr8(old(self)@, address, mode).1, addr8(old(self)@, address, mode).0),
            final(self)@.bus.wf(),
    {
        let addr = self.get_addr_8bit(address, mode);
        self.read_bus(addr)
    }

    /// Reads the value an absolute or indirect mode operand designates.
    pub fn read_16bit(&mut self, address: u16, mode: AddressingMode) -> (r: u8)
        requires
            old(self)@.bus.wf(),
            is_absolute_mode(mode),
        ensures
            (r, final(self)@) == cpu_read(addr16(old(self)@, address, mode).1, addr16(old(self)@, address, mode).0),
            final(self)@.bus.wf(),
    {
        let addr = self.get_addr_16bit(address, mode);
        self.read_bus(addr)
    }

    /// Fetches the operand bytes of a memory mode and resolves the effective address.
    pub fn fetch_operand_addr(&mut self, mode: AddressingMode) -> (r: u16)
        requires
            old(self)@.bus.wf(),
            is_memory_mode(mode),
        ensures
            (r, final(self)@) == operand_addr(old(self)@, mode),
            final(self)@.bus.wf(),
    {
        if mode == AddressingMode::ZeroPage || mode == AddressingMode::ZeroPageX || mode
            == AddressingMode::ZeroPageY || mode == AddressingMode::IndexedIndirect || mode
            == AddressingMode::IndirectIndexed {
            let b = self.mem_read_pc_u8();
            self.get_addr_8bit(b, mode)
        } else {
            let w = self.mem_read_pc_u16();
            self.get_addr_16bit(w, mode)
        }
    }

    /// Fetches the operand of an instruction: inline for Immediate, else from memory.
    pub fn fetch_ins_operand(&mut self, ins: Instruction) -> (r: u8)
        requires
            old(self)@.bus.wf(),
            is_value_mode(ins.mode),
        ensures
            (r, final(self)@) == operand_value(old(self)@, ins.mode),
            final(self)@.bus.wf(),
    {
        if ins.mode == AddressingMode::Immediate {
            self.mem_read_pc_u8()
        } else {
            let addr = self.fetch_operand_addr(ins.mode);
            self.read_bus(addr)
        }
    }

    /// Fetches a memory operand's value together with its address, for read-modify-write.
    pub fn fetch_value_keep_addr(&mut self, ins: Instruction) -> (r: (u8, u16))
        requires
            old(self)@.bus.wf(),
            is_memory_mode(ins.mode),
        ensures
            r.1 == operand_addr(old(self)@, ins.mode).0,
            (r.0, final(self)@) == cpu_read(operand_addr(old(self)@, ins.mode).1, r.1),
            final(self)@.bus.wf(),
    {
        let addr = self.fetch_operand_addr(ins.mode);
        let v = self.read_bus(addr);
        (v, addr)
    }

    /// Stores `val` at the effective address of the instruction's operand.
    pub fn mem_write_with_mode(&mut self, val: u8, ins: Instruction)
        requires
            old(self)@.bus.wf(),
            is_memory_mode(ins.mode),
        ensures
            final(self)@ == cpu_write(
                operand_addr(old(self)@, ins.mode).1,
                operand_addr(old(self)@, ins.mode).0,
                val,
            ),
            final(self)@.bus.wf(),
    {
        let addr = self.fetch_operand_addr(ins.mode);
        self.write_bus(addr, val);
    }

    /// Adds `val` and the carry to the accumulator; sets Carry and Overflow only.
    pub fn add_to_acc(&mut self, val: u8)
        ensures
            final(self)@ == (CpuView {
                a: adc_carry_overflow(old(self)@.a, val, old(self)@.p).0,
                p: adc_carry_overflow(old(self)@.a, val, old(self)@.p).1,
                ..old(self)@
            }),
    {
        let carry_in: u16 = if self.flags.bits & StatusFlags::CARRY == StatusFlags::CARRY { 1 } else { 0 };
        let sum = (self.accumulator as u16) + (val as u16) + carry_in;
        let result = (sum % 256) as u8;
        let fa = with_flag_exec(self.flags.bits, StatusFlags::CARRY, sum > 0xff);
        let fb = with_flag_exec(fa, StatusFlags::OVERFLOW, (val ^ result) & (result ^ self.accumulator) & 0x80 != 0);
        self.accumulator = result;
        self.flags.bits = fb;
    }

    pub fn inc_sp(&mut self)
        ensures
            final(self)@ == (CpuView { sp: old(self)@.sp.wrapping_add(1), ..old(self)@ }),
    {
        self.stack_pointer = self.stack_pointer.wrapping_add(1);
    }

    pub fn dec_sp(&mut self)
        ensures
            final(self)@ == (CpuView { sp: old(self)@.sp.wrapping_sub(1), ..old(self)@ }),
    {
        self.stack_pointer = self.stack_pointer.wrapping_sub(1);
    }

    /// Reads the stack page at the stack pointer.
    pub fn stack_peek(&mut self) -> (r: u8)
        requires
            old(self)@.bus.wf(),
        ensures
            (r, final(self)@) == cpu_read(old(self)@, (0x100 + old(self)@.sp) as u16),
            final(self)@.bus.wf(),
    {
        self.read_bus(self.stack_pointer as u16 + STACK_START)
    }

    /// Pulls a byte off the stack.
    pub fn stack_pull_u8(&mut self) -> (r: u8)
        requires
            old(self)@.bus.wf(),
        ensures
            (r, final(self)@) == pull(old(self)@),
            final(self)@.bus.wf(),
    {
        self.inc_sp();
        self.stack_peek()
    }

    /// Pushes a byte onto the stack.
    pub fn stack_push_u8(&mut self, val: u8)
        requires
            old(self)@.bus.wf(),
        ensures
            final(self)@ == push(old(self)@, val),
            final(self)@.bus.wf(),
    {
        self.write_bus(self.stack_pointer as u16 + STACK_START, val);
        self.dec_sp();
    }

    /// Pushes a word, high byte first.
    pub fn stack_push_u16(&mut self, val: u16)
        requires
            old(self)@.bus.wf(),
        ensures
            final(self)@ == push16(old(self)@, val),
            final(self)@.bus.wf(),
    {
        self.stack_push_u8((val / 256) as u8);
        self.stack_push_u8((val % 256) as u8);
    }

    /// Pulls a word, low byte first.
    pub fn stack_pull_u16(&mut self) -> (r: u16)
        requires
            old(self)@.bus.wf(),
        ensures
            (r, final(self)@) == pull16(old(self)@),
            final(self)@.bus.wf(),
    {
        let lo = self.stack_pull_u8();
        let hi = self.stack_pull_u8();
        crate::make_u16(hi, lo)
    }
    /// LDA, LDX, LDY, STA, STX, STY.
    fn exec_load_store(&mut self, ins: Instruction)
        requires
            old(self)@.bus.wf(),
            mode_fits(ins),
            ins.name == InstructionName::LDA || ins.name == InstructionName::LDX || ins.name
                == InstructionName::LDY || ins.name == InstructionName::STA || ins.name
                == InstructionName::STX || ins.name == InstructionName::STY,
        ensures
            final(self)@ == op_spec(old(self)@, ins),
            final(self)@.bus.wf(),
    {
        reveal(op_spec);
        match ins.name {
            InstructionName::LDA => {
                let v = self.fetch_ins_operand(ins);
                self.accumulator = v;
                self.set_zn_flags(v);
            },
            InstructionName::LDX => {
                let v = self.fetch_ins_operand(ins);
                self.reg_x = v;
                self.set_zn_flags(v);
            },
            InstructionName::LDY => {
                let v = self.fetch_ins_operand(ins);
                self.reg_y = v;
                self.set_zn_flags(v);
            },
            InstructionName::STA => {
                let v = self.accumulator;
                self.mem_write_with_mode(v, ins);
            },
            InstructionName::STX => {
                let v = self.reg_x;
                self.mem_write_with_mode(v, ins);
            },
            _ => {
                let v = self.reg_y;
                self.mem_write_with_mode(v, ins);
            },
        }
    }

    /// Transfers between registers, and increments and decrements of the index registers.
    fn exec_register_op(&mut self, ins: Instruction)
        requires
            ins.name == InstructionName::TAX || ins.name == InstructionName::TAY || ins.name
                == InstructionName::TXA || ins.name == InstructionName::TYA || ins.name
                == InstructionName::TSX || ins.name == InstructionName::TXS || ins.name
                == InstructionName::INX || ins.name == InstructionName::INY || ins.name
                == InstructionName::DEX || ins.name == InstructionName::DEY,
        ensures
            final(self)@.bus == old(self)@.bus,
            final(self)@ == op_spec(old(self)@, ins),
    {
        reveal(op_spec);
        match ins.name {
            InstructionName::TAX => {
                self.reg_x = self.accumulator;
                self.set_zn_flags(self.reg_x);
            },
            InstructionName::TAY => {
                self.reg_y = self.accumulator;
                self.set_zn_flags(self.reg_y);
            },
            InstructionName::TXA => {
                self.accumulator = self.reg_x;
                self.set_zn_flags(self.accumulator);
            },
            InstructionName::TYA => {
                self.accumulator = self.reg_y;
                self.set_zn_flags(self.accumulator);
            },
            InstructionName::TSX => {
                self.reg_x = self.stack_pointer;
                self.set_zn_flags(self.reg_x);
            },
            InstructionName::TXS => {
                self.stack_pointer = self.reg_x;
            },
            InstructionName::INX => {
                self.reg_x = self.reg_x.wrapping_add(1);
                self.set_zn_flags(self.reg_x);
            },
            InstructionName::INY => {
                self.reg_y = self.reg_y.wrapping_add(1);
                self.set_zn_flags(self.reg_y);
            },
            InstructionName::DEX => {
                self.reg_x = self.reg_x.wrapping_sub(1);
                self.set_zn_flags(self.reg_x);
            },
            _ => {
                self.reg_y = self.reg_y.wrapping_sub(1);
                self.set_zn_flags(self.reg_y);
            },
        }
    }

    /// The flag instructions and NOP.
    #[verifier::rlimit(40)]
    fn exec_flag_op(&mut self, ins: Instruction)
        requires
            ins.name == InstructionName::CLC || ins.name == InstructionName::CLD || ins.name
                == InstructionName::CLI || ins.name == InstructionName::CLV || ins.name
                == InstructionName::SEC || ins.name == InstructionName::SED || ins.name
                == InstructionName::SEI || ins.name == InstructionName::NOP,
        ensures
            final(self)@.bus == old(self)@.bus,
            final(self)@ == op_spec(old(self)@, ins),
    {
        reveal(op_spec);
        if ins.name == InstructionName::NOP {
            return;
        }
        let (mask, on) = match ins.name {
            InstructionName::CLC => (StatusFlags::CARRY, false),
            InstructionName::CLD => (StatusFlags::DECIMAL, false),
            InstructionName::CLI => (StatusFlags::INTERRUPT_DISABLE, false),
            InstructionName::CLV => (StatusFlags::OVERFLOW, false),
            InstructionName::SEC => (StatusFlags::CARRY, true),
            InstructionName::SED => (StatusFlags::DECIMAL, true),
            _ => (StatusFlags::INTERRUPT_DISABLE, true),
        };
        self.flags.bits = with_flag_exec(self.flags.bits, mask, on);
    }

    /// ADC, SBC, AND, ORA, EOR, BIT, CMP, CPX, CPY: an operand value combined with a register.
    fn exec_value_op(&mut self, ins: Instruction)
        requires
            old(self)@.bus.wf(),
            mode_fits(ins),
            ins.name == InstructionName::ADC || ins.name == InstructionName::SBC || ins.name
                == InstructionName::AND || ins.name == InstructionName::ORA || ins.name
                == InstructionName::EOR || ins.name == InstructionName::BIT || ins.name
                == InstructionName::CMP || ins.name == InstructionName::CPX || ins.name
                == InstructionName::CPY,
        ensures
            final(self)@ == op_spec(old(self)@, ins),
            final(self)@.bus.wf(),
    {
        reveal(op_spec);
        let v = self.fetch_ins_operand(ins);
        match ins.name {
            InstructionName::ADC => {
                self.add_to_acc(v);
                self.set_zn_flags(self.accumulator);
            },
            InstructionName::SBC => {
                self.add_to_acc(255 - v);
                self.set_zn_flags(self.accumulator);
            },
            InstructionName::AND => {
                self.accumulator = self.accumulator & v;
                self.set_zn_flags(self.accumulator);
            },
            InstructionName::ORA => {
                self.accumulator = self.accumulator | v;
                self.set_zn_flags(self.accumulator);
            },
            InstructionName::EOR => {
                self.accumulator = self.accumulator ^ v;
                self.set_zn_flags(self.accumulator);
            },
            InstructionName::BIT => {
                let fa = with_flag_exec(self.flags.bits, StatusFlags::ZERO, self.accumulator & v == 0);
                let fb = with_flag_exec(fa, StatusFlags::OVERFLOW, v & 0x40 != 0);
                self.flags.bits = with_flag_exec(fb, StatusFlags::NEGATIVE, v & 0x80 != 0);
            },
            InstructionName::CMP => {
                self.flags.bits = compare_exec(self.flags.bits, self.accumulator, v);
            },
            InstructionName::CPX => {
                self.flags.bits = compare_exec(self.flags.bits, self.reg_x, v);
            },
            _ => {
                self.flags.bits = compare_exec(self.flags.bits, self.reg_y, v);
            },
        }
    }

    /// INC, DEC and the shifts and rotations: read, compute, write back to the same place.
    fn exec_modify(&mut self, ins: Instruction)
        requires
            old(self)@.bus.wf(),
            mode_fits(ins),
            ins.name == InstructionName::INC || ins.name == InstructionName::DEC || ins.name
                == InstructionName::ASL || ins.name == InstructionName::LSR || ins.name
                == InstructionName::ROL || ins.name == InstructionName::ROR,
        ensures
            final(self)@ == op_spec(old(self)@, ins),
            final(self)@.bus.wf(),
    {
        reveal(op_spec);
        if ins.mode == AddressingMode::Accumulator && ins.name != InstructionName::INC && ins.name
            != InstructionName::DEC {
            let (r, c) = shift_exec(ins.name, self.accumulator, self.flags.bits & 0x01 == 0x01);
            self.accumulator = r;
            self.flags.bits = zn_exec(with_flag_exec(self.flags.bits, StatusFlags::CARRY, c), r);
        } else {
            let (v, addr) = self.fetch_value_keep_addr(ins);
            let (r, p) = modify_exec(ins.name, v, self.flags.bits);
            self.write_bus(addr, r);
            self.flags.bits = p;
        }
    }

    /// The conditional branches; a taken branch costs one more cycle.
    fn exec_branch(&mut self, ins: Instruction)
        requires
            old(self)@.bus.wf(),
            is_branch(ins.name),
            old(self).cycle_count < usize::MAX,
        ensures
            final(self)@ == op_spec(old(self)@, ins),
            final(self)@.bus.wf(),
    {
        reveal(op_spec);
        if branch_taken_exec(ins.name, self.flags.bits) {
            self.cycle_count = self.cycle_count + 1;
            let off = self.mem_read_pc_u8();
            self.program_counter = if off >= 128 {
                self.program_counter.wrapping_sub(256 - off as u16)
            } else {
                self.program_counter.wrapping_add(off as u16)
            };
        } else {
            self.program_counter = self.program_counter.wrapping_add(1);
        }
    }

    /// JMP, JSR, RTS, RTI, BRK.
    fn exec_jump(&mut self, ins: Instruction)
        requires
            old(self)@.bus.wf(),
            mode_fits(ins),
            ins.name == InstructionName::JMP || ins.name == InstructionName::JSR || ins.name
                == InstructionName::RTS || ins.name == InstructionName::RTI || ins.name
                == InstructionName::BRK,
        ensures
            final(self)@ == op_spec(old(self)@, ins),
            final(self)@.bus.wf(),
    {
        reveal(op_spec);
        match ins.name {
            InstructionName::JMP => {
                self.program_counter = self.fetch_operand_addr(ins.mode);
            },
            InstructionName::JSR => {
                let target = self.mem_read_pc_u16();
                self.stack_push_u16(self.program_counter.wrapping_sub(1));
                self.program_counter = target;
            },
            InstructionName::RTS => {
                let w = self.stack_pull_u16();
                self.program_counter = w.wrapping_add(1);
            },
            InstructionName::RTI => {
                let f = self.stack_pull_u8();
                self.flags.bits = (f & 0xef) | 0x20;
                self.program_counter = self.stack_pull_u16();
            },
            _ => {
                self.stack_push_u16(self.program_counter.wrapping_add(1));
                let p = self.flags.bits | 0x30;
                self.stack_push_u8(p);
                self.flags.bits = self.flags.bits | StatusFlags::INTERRUPT_DISABLE;
                self.program_counter = self.memory.read_16bit(BRK_VECTOR);
            },
        }
    }

    /// PHA, PHP, PLA, PLP. The pushed flags have bits 4 and 5 set; pulled flags get bit 4
    /// cleared and bit 5 set.
    fn exec_stack(&mut self, ins: Instruction)
        requires
            old(self)@.bus.wf(),
            ins.name == InstructionName::PHA || ins.name == InstructionName::PHP || ins.name
                == InstructionName::PLA || ins.name == InstructionName::PLP,
        ensures
            final(self)@ == op_spec(old(self)@, ins),
            final(self)@.bus.wf(),
    {
        reveal(op_spec);
        match ins.name {
            InstructionName::PHA => {
                let a = self.accumulator;
                self.stack_push_u8(a);
            },
            InstructionName::PHP => {
                let p = self.flags.bits | 0x30;
                self.stack_push_u8(p);
            },
            InstructionName::PLA => {
                let v = self.stack_pull_u8();
                self.accumulator = v;
                self.set_zn_flags(v);
            },
            _ => {
                let f = self.stack_pull_u8();
                self.flags.bits = (f & 0xef) | 0x20;
            },
        }
    }

    /// Services the non-maskable interrupt in place of the next fetch.
    fn interrupt_nmi(&mut self)
        requires
            old(self)@.bus.wf(),
        ensures
            final(self)@ == nmi_spec(old(self)@),
            final(self)@.bus.wf(),
    {
        self.memory.acknowledge_interrupt();
        self.stack_push_u16(self.program_counter);
        let pushed = (self.flags.bits & 0xef) | 0x20;
        self.stack_push_u8(pushed);
        self.flags.bits = self.flags.bits | StatusFlags::INTERRUPT_DISABLE;
        self.memory.tick_ppu_dots(2);
        self.program_counter = self.memory.read_16bit(NMI_VECTOR);
    }

    /// Fetches, decodes and carries out one instruction; returns the cycles it took.
    pub fn tick(&mut self) -> (r: usize)
        requires
            old(self)@.bus.wf(),
            old(self).cycle_count + 256 <= usize::MAX,
        ensures
            final(self)@ == step_spec(old(self)@),
            final(self)@.bus.wf(),
            final(self).cycle_count == old(self).cycle_count + r,
            2 <= r <= 256,
    {
        let cycle_count_before = self.cycle_count;
        let opcode = self.memory.read(self.program_counter);
        match get_instruction(opcode) {
            Some(ins) => {
                let ghost mid = self@;
                self.execute(ins);
                proof {
                    lemma_exec_cycles(mid, ins);
                }
            },
            None => {
                self.program_counter = self.program_counter.wrapping_add(1);
                self.cycle_count = self.cycle_count + 2;
            },
        }
        self.cycle_count - cycle_count_before
    }

    /// Services a pending interrupt, runs one instruction and lets the picture unit catch up.
    pub fn run_once(&mut self)
        requires
            old(self)@.bus.wf(),
            old(self).cycle_count + 256 <= usize::MAX,
        ensures
            final(self)@ == run_once_spec(old(self)@),
            final(self)@.bus.wf(),
            old(self).cycle_count < final(self).cycle_count <= old(self).cycle_count + 256,
    {
        if let Some(InterruptType::NonMaskable) = self.memory.poll_interrupt() {
            self.interrupt_nmi();
        }
        let cycles = self.tick();
        self.memory.tick_ppu(cycles);
    }

    /// Runs `count` machine steps.
    pub fn run_count(&mut self, count: usize)
        requires
            old(self)@.bus.wf(),
            old(self).cycle_count + 256 * (count + 1) <= usize::MAX,
        ensures
            final(self)@ == run_spec(old(self)@, count as nat),
            final(self)@.bus.wf(),
    {
        let mut i: usize = 0;
        while i < count
            invariant
                i <= count,
                self@.bus.wf(),
                self.cycle_count + 256 * (count - i + 1) <= usize::MAX,
                run_spec(old(self)@, count as nat) == run_spec(self@, (count - i) as nat),
            decreases count - i,
        {
            self.run_once();
            i = i + 1;
        }
    }

    /// Carries out one instruction whose opcode is at the program counter.
    pub fn execute(&mut self, ins: Instruction)
        requires
            old(self)@.bus.wf(),
            mode_fits(ins),
            old(self).cycle_count + 256 <= usize::MAX,
        ensures
            final(self)@ == exec_spec(old(self)@, ins),
            final(self)@.bus.wf(),
    {
        self.program_counter = self.program_counter.wrapping_add(1);
        self.cycle_count = self.cycle_count + ins.cycles as usize;
        match ins.name {
            InstructionName::LDA | InstructionName::LDX | InstructionName::LDY
            | InstructionName::STA | InstructionName::STX | InstructionName::STY => self.exec_load_store(ins),
            InstructionName::ADC | InstructionName::SBC | InstructionName::AND | InstructionName::ORA
            | InstructionName::EOR | InstructionName::BIT | InstructionName::CMP | InstructionName::CPX
            | InstructionName::CPY => self.exec_value_op(ins),
            InstructionName::INC | InstructionName::DEC | InstructionName::ASL | InstructionName::LSR
            | InstructionName::ROL | InstructionName::ROR => self.exec_modify(ins),
            InstructionName::BCC | InstructionName::BCS | InstructionName::BNE | InstructionName::BEQ
            | InstructionName::BPL | InstructionName::BMI | InstructionName::BVC
            | InstructionName::BVS => self.exec_branch(ins),
            InstructionName::JMP | InstructionName::JSR | InstructionName::RTS | InstructionName::RTI
            | InstructionName::BRK => self.exec_jump(ins),
            InstructionName::PHA | InstructionName::PHP | InstructionName::PLA
            | InstructionName::PLP => self.exec_stack(ins),
            InstructionName::CLC | InstructionName::CLD | InstructionName::CLI | InstructionName::CLV
            | InstructionName::SEC | InstructionName::SED | InstructionName::SEI
            | InstructionName::NOP => self.exec_flag_op(ins),
            _ => self.exec_register_op(ins),
        }
    }

}

} // verus!
