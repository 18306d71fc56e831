use vstd::prelude::*;

use crate::cpu::{CpuState, offset_u16};
use crate::decoding::{Instruction, Operand, Operation, is_cc, is_r8};
use crate::error::EmulationError;
use crate::memory::MemState;

verus! {

// The meaning of each instruction, as a function from the machine state
// before it to the machine state after it and its result.

/// The state an instruction reads and changes.
pub struct Machine {
    pub cpu: CpuState,
    pub mem: MemState,
    pub halted: bool,
}

impl Machine {
    pub open spec fn with_cpu(self, cpu: CpuState) -> Machine {
        Machine { cpu, ..self }
    }

    pub open spec fn with_mem(self, mem: MemState) -> Machine {
        Machine { mem, ..self }
    }
}

/// The operand that points at the byte HL holds the address of.
pub open spec fn hl_ptr() -> Operand {
    Operand::PTR(Box::new(Operand::R16_HL))
}

/// Whether the operand is a register pair that loads, increments and adds.
pub open spec fn is_wide(o: Operand) -> bool {
    o is R16_BC || o is R16_DE || o is R16_HL || o is R16_SP
}

/// Whether the operand is a register pair that is pushed and popped.
pub open spec fn is_stack_pair(o: Operand) -> bool {
    o is R16_BC || o is R16_DE || o is R16_HL || o is R16_AF
}

/// Whether the operand is an 8-bit register or the byte at HL.
pub open spec fn is_target(o: Operand) -> bool {
    is_r8(o) || o == hl_ptr()
}

/// Whether the operand is a source of an accumulator operation.
pub open spec fn is_alu_src(o: Operand) -> bool {
    is_target(o) || o is IMM8
}

/// Whether the operand is a pointer register pair (HL+ and HL- move HL after use).
pub open spec fn is_ptr_pair(o: Operand) -> bool {
    o is R16_BC || o is R16_DE || o is R16_HL || o is R16_HLD || o is R16_HLI
}

/// Whether a pointer operand is a byte address a load can use.
pub open spec fn is_byte_ptr(p: Operand) -> bool {
    is_ptr_pair(p) || p is R8_C || p is IMM8 || p is IMM16
}

/// The shapes of the load instructions.
pub open spec fn ld_shape(dst: Operand, src: Operand) -> bool {
    if is_r8(dst) {
        src is IMM8 || is_r8(src) || (match src {
            Operand::PTR(p) => is_byte_ptr(*p),
            _ => false,
        })
    } else if is_wide(dst) {
        src is IMM16 || is_wide(src) || src is SP_PLUS_SIGNED_IMM8 || (match src {
            Operand::PTR(p) => *p is IMM8_SIGNED,
            _ => false,
        })
    } else {
        match dst {
            Operand::PTR(p) => is_byte_ptr(*p) && (is_r8(src) || src is R16_SP || src is IMM8),
            _ => false,
        }
    }
}

/// The instructions the processor can run: operand shapes it accepts, a bit
/// number below 8, and a cycle count for each taken branch.
pub open spec fn executable(i: Instruction) -> bool {
    match i.op {
        Operation::LD { dst, src } => ld_shape(dst, src),
        Operation::JP { addr } => addr is IMM16 || addr is R16_HL,
        Operation::JP_CC { cc, addr } => is_cc(cc) && (addr is IMM16 || addr is R16_HL)
            && i.branch_cycles is Some,
        Operation::JR { offset_oprd } => offset_oprd is IMM8_SIGNED,
        Operation::JR_CC { cc, offset_oprd } => is_cc(cc) && offset_oprd is IMM8_SIGNED
            && i.branch_cycles is Some,
        Operation::CALL { proc } => proc is IMM16,
        Operation::CALL_CC { cc, proc } => is_cc(cc) && proc is IMM16 && i.branch_cycles is Some,
        Operation::RST { addr } => addr is IMM16,
        Operation::RET_CC { cc } => is_cc(cc) && i.branch_cycles is Some,
        Operation::PUSH { reg } => is_stack_pair(reg),
        Operation::POP { reg } => is_stack_pair(reg),
        Operation::DEC { x } => is_target(x) || is_wide(x),
        Operation::INC { x } => is_target(x) || is_wide(x),
        Operation::ADD { x, y } => (x is R8_A && is_alu_src(y)) || (x is R16_HL && is_wide(y)),
        Operation::SUB { y } => is_alu_src(y),
        Operation::ADC { y } => is_alu_src(y),
        Operation::SBC { y } => is_alu_src(y),
        Operation::OR { y } => is_alu_src(y),
        Operation::XOR { y } => is_alu_src(y),
        Operation::AND { y } => is_alu_src(y),
        Operation::CP { y } => is_alu_src(y),
        Operation::BIT { bit, src } => bit < 8 && is_target(src),
        Operation::RES { bit, x } => bit < 8 && is_target(x),
        Operation::SET { bit, x } => bit < 8 && is_target(x),
        Operation::SWAP { x } => is_target(x),
        Operation::RL { x } => is_target(x),
        Operation::RR { x } => is_target(x),
        Operation::RLC { x } => is_target(x),
        Operation::RRC { x } => is_target(x),
        Operation::SRL { x } => is_target(x),
        Operation::SLA { x } => is_target(x),
        _ => true,
    }
}

// ---- operands ----

/// The byte an accumulator operation, or a bit operation, reads.
pub open spec fn src8(m: Machine, y: Operand) -> u8 {
    match y {
        Operand::IMM8(v) => v,
        Operand::PTR(_) => m.mem.read(m.cpu.hl()),
        _ => m.cpu.r8(y),
    }
}

pub open spec fn src8_defined(m: Machine, y: Operand) -> bool {
    y == hl_ptr() ==> m.mem.readable(m.cpu.hl())
}

/// Whether an operation can read and then write the byte it works on.
pub open spec fn target_defined(m: Machine, x: Operand) -> bool {
    x == hl_ptr() ==> m.mem.readable(m.cpu.hl()) && MemState::writable(m.cpu.hl())
}

/// The state and result after writing a byte to a register or to the byte at HL.
pub open spec fn write_target(m: Machine, x: Operand, v: u8) -> (Machine, Result<(), EmulationError>) {
    if is_r8(x) {
        (m.with_cpu(m.cpu.with_r8(x, v)), Ok(()))
    } else {
        let (mem, r) = m.mem.write_byte_outcome(m.cpu.hl(), v);
        (m.with_mem(mem), r)
    }
}

/// Applies `f` to the registers when the previous step succeeded.
pub open spec fn then_cpu(o: (Machine, Result<(), EmulationError>), f: spec_fn(CpuState) -> CpuState) -> (Machine, Result<(), EmulationError>) {
    if o.1 is Err {
        o
    } else {
        (o.0.with_cpu(f(o.0.cpu)), Ok(()))
    }
}

pub open spec fn carry_value(cpu: CpuState) -> u8 {
    if cpu.cf() { 1 } else { 0 }
}

// ---- loads ----

/// How a pointer operand moves HL after use: +1, -1 or 0.
pub open spec fn hl_step(p: Operand) -> int {
    if p is R16_HLI { 1 } else if p is R16_HLD { -1 } else { 0 }
}

pub open spec fn step_hl(cpu: CpuState, step: int) -> CpuState {
    if step == 1 {
        cpu.with_r16(Operand::R16_HL, cpu.hl().wrapping_add(1))
    } else if step == -1 {
        cpu.with_r16(Operand::R16_HL, cpu.hl().wrapping_sub(1))
    } else {
        cpu
    }
}

/// The address a byte pointer operand designates.
pub open spec fn ptr_address(cpu: CpuState, p: Operand) -> u16 {
    match p {
        Operand::R8_C => (0xFF00 + cpu.c) as u16,
        Operand::IMM8(v) => (0xFF00 + v) as u16,
        Operand::IMM16(a) => a,
        _ => cpu.r16(p),
    }
}

/// The word a 16-bit load reads.
pub open spec fn src16(cpu: CpuState, src: Operand) -> u16 {
    match src {
        Operand::IMM16(v) => v,
        Operand::SP_PLUS_SIGNED_IMM8(e) => offset_u16(cpu.sp, e),
        Operand::PTR(p) => match *p {
            Operand::IMM8_SIGNED(e) => offset_u16(cpu.sp, e),
            _ => 0,
        },
        _ => cpu.r16(src),
    }
}

pub open spec fn ld_defined(m: Machine, dst: Operand, src: Operand) -> bool {
    if is_r8(dst) {
        match src {
            Operand::PTR(p) => m.mem.readable(ptr_address(m.cpu, *p)),
            _ => true,
        }
    } else if is_wide(dst) {
        true
    } else {
        match dst {
            Operand::PTR(p) => if src is R16_SP {
                MemState::word_writable(ptr_address(m.cpu, *p))
            } else {
                MemState::writable(ptr_address(m.cpu, *p))
            },
            _ => true,
        }
    }
}

pub open spec fn ld_outcome(m: Machine, dst: Operand, src: Operand) -> (Machine, Result<(), EmulationError>) {
    if is_r8(dst) {
        let (byte, step) = match src {
            Operand::IMM8(v) => (v, 0),
            Operand::PTR(p) => (m.mem.read(ptr_address(m.cpu, *p)), hl_step(*p)),
            _ => (m.cpu.r8(src), 0),
        };
        (m.with_cpu(step_hl(m.cpu.with_r8(dst, byte), step)), Ok(()))
    } else if is_wide(dst) {
        (m.with_cpu(m.cpu.with_r16(dst, src16(m.cpu, src))), Ok(()))
    } else {
        match dst {
            Operand::PTR(p) => {
                let address = ptr_address(m.cpu, *p);
                let (mem, r) = match src {
                    Operand::R16_SP => m.mem.write_word_outcome(address, m.cpu.sp),
                    Operand::IMM8(v) => m.mem.write_byte_outcome(address, v),
                    _ => m.mem.write_byte_outcome(address, m.cpu.r8(src)),
                };
                if r is Err {
                    (m.with_mem(mem), r)
                } else {
                    (m.with_mem(mem).with_cpu(step_hl(m.cpu, hl_step(*p))), Ok(()))
                }
            },
            _ => (m, Ok(())),
        }
    }
}

// ---- increments and decrements ----

pub open spec fn inc_flags(cpu: CpuState, before: u8, result: u8) -> CpuState {
    cpu.with_z(result == 0).with_n(false).with_h(before % 16 == 15)
}

pub open spec fn dec_flags(cpu: CpuState, before: u8, result: u8) -> CpuState {
    cpu.with_z(result == 0).with_n(true).with_h(before % 16 == 0)
}

pub open spec fn inc_outcome(m: Machine, x: Operand) -> (Machine, Result<(), EmulationError>) {
    if is_wide(x) {
        // no flags for 16-bit increment
        (m.with_cpu(m.cpu.with_r16(x, m.cpu.r16(x).wrapping_add(1))), Ok(()))
    } else {
        let before = src8(m, x);
        let result = before.wrapping_add(1);
        then_cpu(write_target(m, x, result), |c: CpuState| inc_flags(c, before, result))
    }
}

pub open spec fn dec_outcome(m: Machine, x: Operand) -> (Machine, Result<(), EmulationError>) {
    if is_wide(x) {
        (m.with_cpu(m.cpu.with_r16(x, m.cpu.r16(x).wrapping_sub(1))), Ok(()))
    } else {
        let before = src8(m, x);
        let result = before.wrapping_sub(1);
        then_cpu(write_target(m, x, result), |c: CpuState| dec_flags(c, before, result))
    }
}

// ---- accumulator operations ----

pub open spec fn with_a(cpu: CpuState, a: u8) -> CpuState {
    CpuState { a, ..cpu }
}

pub open spec fn add_a(cpu: CpuState, v: u8) -> CpuState {
    let a = cpu.a;
    let result = a.wrapping_add(v);
    // the carry flag is set on a carry out of bit 7
    with_a(cpu, result).with_znhc(result == 0, false, a % 16 + v % 16 > 15, a + v > 0xFF)
}

pub open spec fn add_hl(cpu: CpuState, v: u16) -> CpuState {
    let hl = cpu.hl();
    // the carry flag is set on a carry out of bit 15
    cpu.with_r16(Operand::R16_HL, hl.wrapping_add(v)).with_n(false).with_h(
        hl % 4096 + v % 4096 > 4095,
    ).with_c(hl + v > 0xFFFF)
}

pub open spec fn adc_a(cpu: CpuState, v: u8) -> CpuState {
    let a = cpu.a;
    let carry = carry_value(cpu);
    let result = a.wrapping_add(v).wrapping_add(carry);
    with_a(cpu, result).with_znhc(
        result == 0,
        false,
        a % 16 + (v + carry) % 16 > 15,
        a + v + carry > 0xFF,
    )
}

pub open spec fn sub_a(cpu: CpuState, v: u8) -> CpuState {
    let a = cpu.a;
    let result = a.wrapping_sub(v);
    with_a(cpu, result).with_znhc(result == 0, true, a % 16 < v % 16, a < v)
}

pub open spec fn sbc_a(cpu: CpuState, v: u8) -> CpuState {
    let a = cpu.a;
    let carry = carry_value(cpu);
    let result = a.wrapping_sub(v).wrapping_sub(carry);
    with_a(cpu, result).with_znhc(result == 0, true, a % 16 < v % 16 + carry, a < v + carry)
}

pub open spec fn and_a(cpu: CpuState, v: u8) -> CpuState {
    let result = cpu.a & v;
    with_a(cpu, result).with_znhc(result == 0, false, true, false)
}

pub open spec fn xor_a(cpu: CpuState, v: u8) -> CpuState {
    let result = cpu.a ^ v;
    with_a(cpu, result).with_znhc(result == 0, false, false, false)
}

pub open spec fn or_a(cpu: CpuState, v: u8) -> CpuState {
    let result = cpu.a | v;
    with_a(cpu, result).with_znhc(result == 0, false, false, false)
}

pub open spec fn cp_a(cpu: CpuState, v: u8) -> CpuState {
    let a = cpu.a;
    cpu.with_znhc(a == v, true, a % 16 < v % 16, a < v)
}

/// Decimal adjustment of the accumulator after a BCD addition or subtraction.
// https://blog.ollien.com/posts/gb-daa/
pub open spec fn daa(cpu: CpuState) -> CpuState {
    let a = cpu.a;
    let n = cpu.n();
    let low = if (!n && a % 16 > 9) || cpu.hf() { 0x06u8 } else { 0 };
    let high = if (!n && a > 0x99) || cpu.cf() { 0x60u8 } else { 0 };
    let offset = (low + high) as u8;
    let result = if !n { a.wrapping_add(offset) } else { a.wrapping_sub(offset) };
    // flags : z - 0 c
    with_a(cpu, result).with_z(result == 0).with_h(false).with_c(cpu.cf() || (!n && result > 0x99))
}

// ---- bit operations ----

/// The byte with its two nibbles swapped.
pub open spec fn swap_nibbles(v: u8) -> u8 {
    ((v % 16) * 16 + v / 16) as u8
}

/// The byte with bit `bit` cleared or set.
pub open spec fn with_bit(v: u8, bit: u8, set: bool) -> u8 {
    let mask = crate::cpu::pow2_u8(bit);
    if set { v | mask } else { v & !mask }
}

pub open spec fn znhc(z: bool, n: bool, h: bool, c: bool) -> spec_fn(CpuState) -> CpuState {
    |cpu: CpuState| cpu.with_znhc(z, n, h, c)
}

/// Shifts and rotations of a byte: the result and the carry out.
pub open spec fn shift_result(op: Operation, v: u8, carry_in: u8) -> (u8, bool) {
    match op {
        Operation::RL { .. } => (((v * 2) % 256 + carry_in) as u8, v >= 128),
        Operation::RR { .. } => ((v / 2 + 128 * carry_in) as u8, v % 2 == 1),
        Operation::RLC { .. } => (((v * 2) % 256 + v / 128) as u8, v >= 128),
        Operation::RRC { .. } => ((v / 2 + 128 * (v % 2)) as u8, v % 2 == 1),
        Operation::SLA { .. } => (((v * 2) % 256) as u8, v >= 128),
        _ => ((v / 2) as u8, v % 2 == 1),  // SRL
    }
}

/// The rotations through and of the carry set the carry before the byte is
/// written, the shifts after.
pub open spec fn shift_outcome(m: Machine, op: Operation, x: Operand) -> (Machine, Result<(), EmulationError>) {
    let v = src8(m, x);
    let (result, carry) = shift_result(op, v, carry_value(m.cpu));
    if op is SRL || op is SLA {
        then_cpu(write_target(m, x, result), znhc(result == 0, false, false, carry))
    } else {
        then_cpu(
            write_target(m.with_cpu(m.cpu.with_c(carry)), x, result),
            |c: CpuState| c.with_z(result == 0).with_n(false).with_h(false),
        )
    }
}

/// Rotations of the accumulator.
pub open spec fn rotate_a(cpu: CpuState, op: Operation) -> CpuState {
    let v = cpu.a;
    let carry_in = carry_value(cpu);
    let (result, carry) = match op {
        Operation::RLA => (((v * 2) % 256 + carry_in) as u8, v >= 128),
        Operation::RRA => ((v / 2 + 128 * carry_in) as u8, v % 2 == 1),
        Operation::RLCA => (((v * 2) % 256 + v / 128) as u8, v >= 128),
        _ => ((v / 2 + 128 * (v % 2)) as u8, v % 2 == 1),  // RRCA
    };
    with_a(cpu.with_c(carry), result).with_z(false).with_n(false).with_h(false)
}

// ---- stack ----

/// The state and result after pushing a word: SP moves down by two, then the
/// word is written there.
pub open spec fn push_outcome(m: Machine, w: u16) -> (Machine, Result<(), EmulationError>) {
    let sp = offset_u16(m.cpu.sp, -2i8);
    let (mem, r) = m.mem.write_word_outcome(sp, w);
    (Machine { cpu: CpuState { sp, ..m.cpu }, mem, ..m }, r)
}

pub open spec fn push_defined(m: Machine) -> bool {
    MemState::word_writable(offset_u16(m.cpu.sp, -2i8))
}

pub open spec fn pop_defined(m: Machine) -> bool {
    m.mem.word_readable(m.cpu.sp)
}

/// The registers after a word is popped into PC.
pub open spec fn popped_pc(m: Machine) -> CpuState {
    CpuState { sp: offset_u16(m.cpu.sp, 2i8), pc: m.mem.read_word(m.cpu.sp), ..m.cpu }
}

/// The state and result after a call: the return address is pushed, then PC jumps.
pub open spec fn call_outcome(m: Machine, target: u16) -> (Machine, Result<(), EmulationError>) {
    let (m1, r) = push_outcome(m, m.cpu.pc);
    if r is Err {
        (m1, r)
    } else {
        (m1.with_cpu(CpuState { pc: target, ..m1.cpu }), Ok(()))
    }
}

pub open spec fn jump_target(cpu: CpuState, addr: Operand) -> u16 {
    match addr {
        Operand::IMM16(a) => a,
        _ => cpu.hl(),
    }
}

pub open spec fn imm16_of(o: Operand) -> u16 {
    match o {
        Operand::IMM16(a) => a,
        _ => 0,
    }
}

pub open spec fn offset_of(o: Operand) -> i8 {
    match o {
        Operand::IMM8_SIGNED(e) => e,
        _ => 0,
    }
}

// ---- instructions ----

/// Whether running the instruction on this state is defined: every memory
/// access is to a mapped address.
pub open spec fn exec_defined(m: Machine, i: Instruction) -> bool {
    match i.op {
        Operation::LD { dst, src } => ld_defined(m, dst, src),
        Operation::INC { x } => target_defined(m, x),
        Operation::DEC { x } => target_defined(m, x),
        Operation::ADD { x, y } => x is R8_A ==> src8_defined(m, y),
        Operation::SUB { y } => src8_defined(m, y),
        Operation::ADC { y } => src8_defined(m, y),
        Operation::SBC { y } => src8_defined(m, y),
        Operation::OR { y } => src8_defined(m, y),
        Operation::XOR { y } => src8_defined(m, y),
        Operation::AND { y } => src8_defined(m, y),
        Operation::CP { y } => src8_defined(m, y),
        Operation::BIT { src, .. } => src8_defined(m, src),
        Operation::RES { x, .. } => target_defined(m, x),
        Operation::SET { x, .. } => target_defined(m, x),
        Operation::SWAP { x } => target_defined(m, x),
        Operation::RL { x } => target_defined(m, x),
        Operation::RR { x } => target_defined(m, x),
        Operation::RLC { x } => target_defined(m, x),
        Operation::RRC { x } => target_defined(m, x),
        Operation::SRL { x } => target_defined(m, x),
        Operation::SLA { x } => target_defined(m, x),
        Operation::CALL { .. } => push_defined(m),
        Operation::CALL_CC { cc, .. } => m.cpu.cc(cc) ==> push_defined(m),
        Operation::RST { .. } => push_defined(m),
        Operation::PUSH { .. } => push_defined(m),
        Operation::RET => pop_defined(m),
        Operation::RETI => pop_defined(m),
        Operation::POP { .. } => pop_defined(m),
        Operation::RET_CC { cc } => m.cpu.cc(cc) ==> pop_defined(m),
        _ => true,
    }
}

/// Attaches a cycle count to a successful step.
pub open spec fn timed(o: (Machine, Result<(), EmulationError>), cycles: u64) -> (Machine, Result<u64, EmulationError>) {
    match o.1 {
        Ok(_) => (o.0, Ok(cycles)),
        Err(e) => (o.0, Err(e)),
    }
}

/// The state after an instruction runs, and the cycles it took or the error it raised.
/// The program counter first moves past the instruction, so that jumps are
/// relative to its end.
pub open spec fn execute_spec(m0: Machine, i: Instruction) -> (Machine, Result<u64, EmulationError>) {
    operation_spec(m0.with_cpu(CpuState { pc: m0.cpu.pc.wrapping_add(i.size), ..m0.cpu }), i)
}

/// The effect of an instruction once the program counter has moved past it.
pub open spec fn operation_spec(m: Machine, i: Instruction) -> (Machine, Result<u64, EmulationError>) {
    match i.op {
        Operation::LD { .. } => load_spec(m, i),
        Operation::INC { .. } | Operation::DEC { .. } => inc_dec_spec(m, i),
        Operation::ADD { .. } | Operation::ADC { .. } | Operation::SUB { .. } | Operation::SBC { .. } | Operation::XOR { .. } | Operation::OR { .. } | Operation::AND { .. } | Operation::CP { .. } => alu_spec(m, i),
        Operation::BIT { .. } | Operation::RES { .. } | Operation::SET { .. } | Operation::SWAP { .. } => bit_op_spec(m, i),
        Operation::RL { .. } | Operation::RR { .. } | Operation::RLC { .. } | Operation::RRC { .. } | Operation::SRL { .. } | Operation::SLA { .. } => shift_op_spec(m, i),
        Operation::JR { .. } | Operation::JR_CC { .. } | Operation::JP { .. } | Operation::JP_CC { .. } | Operation::CALL { .. } | Operation::CALL_CC { .. } | Operation::RST { .. } | Operation::RET | Operation::RET_CC { .. } | Operation::RETI | Operation::PUSH { .. } | Operation::POP { .. } => flow_spec(m, i),
        _ => control_spec(m, i),
    }
}

/// The effect of a load.
#[verifier::opaque]
pub open spec fn load_spec(m: Machine, i: Instruction) -> (Machine, Result<u64, EmulationError>) {
    let cpu = m.cpu;
    let cycles = i.cycles;
    match i.op {
        Operation::LD { dst, src } => timed(ld_outcome(m, dst, src), cycles),
        _ => (m, Ok(cycles)),
    }
}

/// The effect of an increment or a decrement.
#[verifier::opaque]
pub open spec fn inc_dec_spec(m: Machine, i: Instruction) -> (Machine, Result<u64, EmulationError>) {
    let cpu = m.cpu;
    let cycles = i.cycles;
    match i.op {
        Operation::INC { x } => timed(inc_outcome(m, x), cycles),
        Operation::DEC { x } => timed(dec_outcome(m, x), cycles),
        _ => (m, Ok(cycles)),
    }
}

/// The effect of an accumulator operation (and of adding to HL).
#[verifier::opaque]
pub open spec fn alu_spec(m: Machine, i: Instruction) -> (Machine, Result<u64, EmulationError>) {
    let cpu = m.cpu;
    let cycles = i.cycles;
    match i.op {
        Operation::ADD { x, y } => if x is R8_A {
            (m.with_cpu(add_a(cpu, src8(m, y))), Ok(cycles))
        } else {
            (m.with_cpu(add_hl(cpu, cpu.r16(y))), Ok(cycles))
        },
        Operation::ADC { y } => (m.with_cpu(adc_a(cpu, src8(m, y))), Ok(cycles)),
        Operation::SUB { y } => (m.with_cpu(sub_a(cpu, src8(m, y))), Ok(cycles)),
        Operation::SBC { y } => (m.with_cpu(sbc_a(cpu, src8(m, y))), Ok(cycles)),
        Operation::XOR { y } => (m.with_cpu(xor_a(cpu, src8(m, y))), Ok(cycles)),
        Operation::OR { y } => (m.with_cpu(or_a(cpu, src8(m, y))), Ok(cycles)),
        Operation::AND { y } => (m.with_cpu(and_a(cpu, src8(m, y))), Ok(cycles)),
        Operation::CP { y } => (m.with_cpu(cp_a(cpu, src8(m, y))), Ok(cycles)),
        _ => (m, Ok(cycles)),
    }
}

/// The effect of a bit test, reset or set, or of a nibble swap.
#[verifier::opaque]
pub open spec fn bit_op_spec(m: Machine, i: Instruction) -> (Machine, Result<u64, EmulationError>) {
    let cpu = m.cpu;
    let cycles = i.cycles;
    match i.op {
        Operation::BIT { bit, src } => (
            m.with_cpu(cpu.with_z(!crate::cpu::bit_of(src8(m, src), bit)).with_n(false).with_h(true)),
            Ok(cycles),
        ),
        Operation::RES { bit, x } => timed(write_target(m, x, with_bit(src8(m, x), bit, false)), cycles),
        Operation::SET { bit, x } => timed(write_target(m, x, with_bit(src8(m, x), bit, true)), cycles),
        Operation::SWAP { x } => {
            let result = swap_nibbles(src8(m, x));
            timed(then_cpu(write_target(m, x, result), znhc(result == 0, false, false, false)), cycles)
        },
        _ => (m, Ok(cycles)),
    }
}

/// The effect of a shift or rotation of a register or of the byte at HL.
#[verifier::opaque]
pub open spec fn shift_op_spec(m: Machine, i: Instruction) -> (Machine, Result<u64, EmulationError>) {
    let cpu = m.cpu;
    let cycles = i.cycles;
    match i.op {
        Operation::RL { x } => timed(shift_outcome(m, i.op, x), cycles),
        Operation::RR { x } => timed(shift_outcome(m, i.op, x), cycles),
        Operation::RLC { x } => timed(shift_outcome(m, i.op, x), cycles),
        Operation::RRC { x } => timed(shift_outcome(m, i.op, x), cycles),
        Operation::SRL { x } => timed(shift_outcome(m, i.op, x), cycles),
        Operation::SLA { x } => timed(shift_outcome(m, i.op, x), cycles),
        _ => (m, Ok(cycles)),
    }
}

/// The effect of a jump, call, return, push or pop.
#[verifier::opaque]
pub open spec fn flow_spec(m: Machine, i: Instruction) -> (Machine, Result<u64, EmulationError>) {
    let cpu = m.cpu;
    let cycles = i.cycles;
    match i.op {
        Operation::JR { offset_oprd } => (
            m.with_cpu(CpuState { pc: offset_u16(cpu.pc, offset_of(offset_oprd)), ..cpu }),
            Ok(cycles),
        ),
        Operation::JR_CC { cc, offset_oprd } => if cpu.cc(cc) {
            (
                m.with_cpu(CpuState { pc: offset_u16(cpu.pc, offset_of(offset_oprd)), ..cpu }),
                Ok(i.branch_cycles.unwrap()),
            )
        } else {
            (m, Ok(cycles))
        },
        Operation::JP { addr } => (m.with_cpu(CpuState { pc: jump_target(cpu, addr), ..cpu }), Ok(cycles)),
        Operation::JP_CC { cc, addr } => if cpu.cc(cc) {
            (m.with_cpu(CpuState { pc: jump_target(cpu, addr), ..cpu }), Ok(i.branch_cycles.unwrap()))
        } else {
            (m, Ok(cycles))
        },
        Operation::CALL { proc } => timed(call_outcome(m, imm16_of(proc)), cycles),
        Operation::CALL_CC { cc, proc } => if cpu.cc(cc) {
            timed(call_outcome(m, imm16_of(proc)), i.branch_cycles.unwrap())
        } else {
            (m, Ok(cycles))
        },
        Operation::RST { addr } => timed(call_outcome(m, imm16_of(addr)), cycles),
        Operation::RET => (m.with_cpu(popped_pc(m)), Ok(cycles)),
        Operation::RET_CC { cc } => if cpu.cc(cc) {
            (m.with_cpu(popped_pc(m)), Ok(i.branch_cycles.unwrap()))
        } else {
            (m, Ok(cycles))
        },
        Operation::RETI => (m.with_cpu(CpuState { ime: true, ..popped_pc(m) }), Ok(cycles)),
        Operation::PUSH { reg } => timed(push_outcome(m, cpu.r16(reg)), cycles),
        Operation::POP { reg } => (
            m.with_cpu(CpuState { sp: offset_u16(cpu.sp, 2i8), ..cpu }.with_r16(reg, m.mem.read_word(cpu.sp))),
            Ok(cycles),
        ),
        _ => (m, Ok(cycles)),
    }
}

/// The effect of the other operations: no-op, rotations and decimal adjustment of A, complement, interrupt enable and disable, halt.
#[verifier::opaque]
pub open spec fn control_spec(m: Machine, i: Instruction) -> (Machine, Result<u64, EmulationError>) {
    let cpu = m.cpu;
    let cycles = i.cycles;
    match i.op {
        Operation::NOP => (m, Ok(cycles)),
        Operation::RLA => (m.with_cpu(rotate_a(cpu, i.op)), Ok(cycles)),
        Operation::RRA => (m.with_cpu(rotate_a(cpu, i.op)), Ok(cycles)),
        Operation::RLCA => (m.with_cpu(rotate_a(cpu, i.op)), Ok(cycles)),
        Operation::RRCA => (m.with_cpu(rotate_a(cpu, i.op)), Ok(cycles)),
        Operation::DAA => (m.with_cpu(daa(cpu)), Ok(cycles)),
        Operation::DI => (m.with_cpu(CpuState { ime: false, ..cpu }), Ok(cycles)),
        Operation::EI => (m.with_cpu(CpuState { ime: true, ..cpu }), Ok(cycles)),
        Operation::CPL => (m.with_cpu(with_a(cpu, !cpu.a).with_n(true).with_h(true)), Ok(cycles)),
        Operation::HALT => if cpu.ime || (m.mem.ie & m.mem.io[0x0F]) == 0 {
            (Machine { halted: true, ..m }, Ok(cycles))
        } else {
            // halt bug: not emulated
            (m, Ok(cycles))
        },
        _ => (m, Ok(cycles)),
    }
}


/// Whether an instruction is defined does not depend on the program counter.
pub proof fn lemma_exec_defined_ignores_pc(m: Machine, i: Instruction, pc: u16)
    ensures
        exec_defined(m, i) == exec_defined(m.with_cpu(CpuState { pc, ..m.cpu }), i),
{
    let m2 = m.with_cpu(CpuState { pc, ..m.cpu });
    assert(m2.cpu.hl() == m.cpu.hl());
    assert(m2.cpu.sp == m.cpu.sp);
    assert(m2.cpu.f == m.cpu.f);
    assert(m2.mem == m.mem);
    match i.op {
        Operation::LD { dst, src } => {
            match dst {
                Operand::PTR(p) => {
                    assert(ptr_address(m.cpu, *p) == ptr_address(m2.cpu, *p));
                },
                _ => {
                    match src {
                        Operand::PTR(p) => {
                            assert(ptr_address(m.cpu, *p) == ptr_address(m2.cpu, *p));
                        },
                        _ => {},
                    }
                },
            }
        },
        _ => {},
    }
}


/// Whether an operation may move the program counter elsewhere than past itself.
pub open spec fn is_jump(op: Operation) -> bool {
    ||| op is JP
    ||| op is JP_CC
    ||| op is JR
    ||| op is JR_CC
    ||| op is CALL
    ||| op is CALL_CC
    ||| op is RST
    ||| op is RET
    ||| op is RET_CC
    ||| op is RETI
}

/// A register pair pushed on the stack and then popped into a register pair
/// gives that pair the value pushed and the stack pointer its value from
/// before the push, when the two bytes under the stack pointer are plain memory.
#[verifier::spinoff_prover]
#[verifier::rlimit(100)]
pub proof fn lemma_push_then_pop(m: Machine, push: Instruction, pop: Instruction)
    requires
        m.mem.wf(),
        push.op is PUSH,
        pop.op is POP,
        executable(push),
        executable(pop),
        m.cpu.sp >= 2,
        crate::memory::is_plain_memory((m.cpu.sp - 2) as u16),
        crate::memory::is_plain_memory((m.cpu.sp - 1) as u16),
    ensures
        exec_defined(m, push),
        execute_spec(m, push).1 is Ok,
        exec_defined(execute_spec(m, push).0, pop),
        execute_spec(execute_spec(m, push).0, pop).1 is Ok,
        execute_spec(execute_spec(m, push).0, pop).0.cpu.r16(pop.op->POP_reg) == m.cpu.r16(push.op->PUSH_reg),
        execute_spec(execute_spec(m, push).0, pop).0.cpu.sp == m.cpu.sp,
{
    let w = m.cpu.r16(push.op->PUSH_reg);
    let sp = (m.cpu.sp - 2) as u16;
    crate::memory::lemma_word_read_after_write(m.mem, sp, w);
    lemma_push_step(m, push);
    let m1 = execute_spec(m, push).0;
    lemma_pop_step(m1, pop);
    crate::cpu::lemma_register_write_read(
        CpuState { sp: offset_u16(m1.cpu.sp, 2i8), pc: m1.cpu.pc.wrapping_add(pop.size), ..m1.cpu },
        pop.op->POP_reg,
        pop.op->POP_reg,
        0,
        m1.mem.read_word(sp),
    );
}

/// Running PUSH moves the stack pointer down by two and writes the pair there.
#[verifier::spinoff_prover]
#[verifier::rlimit(100)]
proof fn lemma_push_step(m: Machine, push: Instruction)
    requires
        push.op is PUSH,
        executable(push),
        m.cpu.sp >= 2,
    ensures
        exec_defined(m, push) == MemState::word_writable((m.cpu.sp - 2) as u16),
        execute_spec(m, push).0.cpu.sp == m.cpu.sp - 2,
        execute_spec(m, push).0.mem == m.mem.write_word_outcome(
            (m.cpu.sp - 2) as u16,
            m.cpu.r16(push.op->PUSH_reg),
        ).0,
        execute_spec(m, push).1 is Ok <==> m.mem.write_word_outcome(
            (m.cpu.sp - 2) as u16,
            m.cpu.r16(push.op->PUSH_reg),
        ).1 is Ok,
{
    reveal(flow_spec);
    let m0 = m.with_cpu(CpuState { pc: m.cpu.pc.wrapping_add(push.size), ..m.cpu });
    let reg = push.op->PUSH_reg;
    assert(offset_u16(m.cpu.sp, -2i8) == m.cpu.sp - 2);
    assert(m0.cpu.r16(reg) == m.cpu.r16(reg));
    assert(execute_spec(m, push) == operation_spec(m0, push));
    assert(operation_spec(m0, push) == timed(push_outcome(m0, m0.cpu.r16(reg)), push.cycles));
    assert(exec_defined(m, push) == push_defined(m));
}

/// Running POP reads the word at the stack pointer into the pair and moves
/// the stack pointer up by two.
pub(crate) proof fn lemma_pop_step(m: Machine, pop: Instruction)
    requires
        pop.op is POP,
        executable(pop),
    ensures
        exec_defined(m, pop) == m.mem.word_readable(m.cpu.sp),
        execute_spec(m, pop).1 is Ok,
        execute_spec(m, pop).0.cpu == (CpuState {
            sp: offset_u16(m.cpu.sp, 2i8),
            pc: m.cpu.pc.wrapping_add(pop.size),
            ..m.cpu
        }).with_r16(pop.op->POP_reg, m.mem.read_word(m.cpu.sp)),
{
    reveal(flow_spec);
}

/// An instruction that does not jump leaves the program counter on the
/// instruction right after it.
pub proof fn lemma_straight_line_pc(m: Machine, i: Instruction)
    requires
        executable(i),
        !is_jump(i.op),
    ensures
        execute_spec(m, i).0.cpu.pc == m.cpu.pc.wrapping_add(i.size),
{
    let m0 = m.with_cpu(CpuState { pc: m.cpu.pc.wrapping_add(i.size), ..m.cpu });
    assert(execute_spec(m, i) == operation_spec(m0, i));
    lemma_operation_keeps_pc(m0, i);
}

/// An operation that does not jump leaves the program counter alone.
#[verifier::spinoff_prover]
#[verifier::rlimit(80)]
proof fn lemma_operation_keeps_pc(m: Machine, i: Instruction)
    requires
        executable(i),
        !is_jump(i.op),
    ensures
        operation_spec(m, i).0.cpu.pc == m.cpu.pc,
{
    reveal(load_spec);
    reveal(inc_dec_spec);
    reveal(alu_spec);
    reveal(bit_op_spec);
    reveal(shift_op_spec);
    reveal(control_spec);
    reveal(flow_spec);
    match i.op {
        Operation::LD { dst, src } => {
            lemma_ld_keeps_pc(m, dst, src);
            assert(operation_spec(m, i) == load_spec(m, i));
            assert(load_spec(m, i) == timed(ld_outcome(m, dst, src), i.cycles));
        },
        Operation::INC { x } => lemma_write_target_keeps_pc(m, x, src8(m, x).wrapping_add(1)),
        Operation::DEC { x } => lemma_write_target_keeps_pc(m, x, src8(m, x).wrapping_sub(1)),
        Operation::RES { bit, x } => lemma_write_target_keeps_pc(m, x, with_bit(src8(m, x), bit, false)),
        Operation::SET { bit, x } => lemma_write_target_keeps_pc(m, x, with_bit(src8(m, x), bit, true)),
        Operation::SWAP { x } => lemma_write_target_keeps_pc(m, x, swap_nibbles(src8(m, x))),
        Operation::RL { x } => lemma_shift_keeps_pc(m, i.op, x),
        Operation::RR { x } => lemma_shift_keeps_pc(m, i.op, x),
        Operation::RLC { x } => lemma_shift_keeps_pc(m, i.op, x),
        Operation::RRC { x } => lemma_shift_keeps_pc(m, i.op, x),
        Operation::SRL { x } => lemma_shift_keeps_pc(m, i.op, x),
        Operation::SLA { x } => lemma_shift_keeps_pc(m, i.op, x),
        Operation::PUSH { reg } => {},
        _ => {},
    }
}

proof fn lemma_write_target_keeps_pc(m: Machine, x: Operand, v: u8)
    ensures
        write_target(m, x, v).0.cpu.pc == m.cpu.pc,
{
}

proof fn lemma_shift_keeps_pc(m: Machine, op: Operation, x: Operand)
    ensures
        shift_outcome(m, op, x).0.cpu.pc == m.cpu.pc,
{
    let v = src8(m, x);
    let (result, carry) = shift_result(op, v, carry_value(m.cpu));
    lemma_write_target_keeps_pc(m, x, result);
    lemma_write_target_keeps_pc(m.with_cpu(m.cpu.with_c(carry)), x, result);
}

proof fn lemma_ld_keeps_pc(m: Machine, dst: Operand, src: Operand)
    ensures
        ld_outcome(m, dst, src).0.cpu.pc == m.cpu.pc,
{
}

/// Where the program counter goes: past the instruction, unless it jumps;
/// a relative jump (and a conditional one whose condition holds) moves it by
/// its signed offset from the end of the instruction, and a conditional jump,
/// call or return whose condition does not hold goes past it.
pub proof fn lemma_next_pc(m: Machine, i: Instruction)
    requires
        executable(i),
    ensures
        !is_jump(i.op) ==> execute_spec(m, i).0.cpu.pc == m.cpu.pc.wrapping_add(i.size),
        i.op matches Operation::JR { offset_oprd } ==> execute_spec(m, i).0.cpu.pc == offset_u16(
            m.cpu.pc.wrapping_add(i.size),
            offset_of(offset_oprd),
        ),
        i.op matches Operation::JR_CC { cc, offset_oprd } ==> execute_spec(m, i).0.cpu.pc == if m.cpu.cc(
            cc,
        ) {
            offset_u16(m.cpu.pc.wrapping_add(i.size), offset_of(offset_oprd))
        } else {
            m.cpu.pc.wrapping_add(i.size)
        },
        (i.op matches Operation::JP_CC { cc, .. } && !m.cpu.cc(cc)) ==> execute_spec(m, i).0.cpu.pc
            == m.cpu.pc.wrapping_add(i.size),
        (i.op matches Operation::CALL_CC { cc, .. } && !m.cpu.cc(cc)) ==> execute_spec(m, i).0.cpu.pc
            == m.cpu.pc.wrapping_add(i.size),
        (i.op matches Operation::RET_CC { cc } && !m.cpu.cc(cc)) ==> execute_spec(m, i).0.cpu.pc
            == m.cpu.pc.wrapping_add(i.size),
{
    reveal(flow_spec);
    if !is_jump(i.op) {
        lemma_straight_line_pc(m, i);
    }
}

/// CP compares A with its operand as a subtraction whose result is dropped:
/// A and memory stay, Z tells whether they are equal, N is set, H tells a
/// borrow from bit 4 and C a borrow out of bit 7.
#[verifier::spinoff_prover]
#[verifier::rlimit(50)]
pub proof fn lemma_cp_flags(m: Machine, i: Instruction)
    requires
        i.op is CP,
        executable(i),
    ensures
        ({
            let (m1, r) = execute_spec(m, i);
            let a = m.cpu.a;
            let v = src8(m, i.op->CP_y);
            &&& r == Ok::<u64, EmulationError>(i.cycles)
            &&& m1.mem == m.mem
            &&& m1.cpu.a == a
            &&& m1.cpu.z() == (a == v)
            &&& m1.cpu.n()
            &&& m1.cpu.hf() == (a % 16 < v % 16)
            &&& m1.cpu.cf() == (a < v)
        }),
{
    reveal(alu_spec);
    let m0 = m.with_cpu(CpuState { pc: m.cpu.pc.wrapping_add(i.size), ..m.cpu });
    let v = src8(m, i.op->CP_y);
    let a = m.cpu.a;
    assert(src8(m0, i.op->CP_y) == v);
    assert(execute_spec(m, i) == operation_spec(m0, i));
    assert(operation_spec(m0, i) == (m0.with_cpu(cp_a(m0.cpu, v)), Ok::<u64, EmulationError>(i.cycles)));
    crate::cpu::lemma_znhc(m0.cpu, a == v, true, a % 16 < v % 16, a < v);
}

/// ADD A adds its operand to A modulo 256: Z tells a zero result, N is
/// cleared, H tells a carry out of bit 3 and C a carry out of bit 7.
#[verifier::spinoff_prover]
#[verifier::rlimit(50)]
pub proof fn lemma_add_flags(m: Machine, i: Instruction)
    requires
        i.op matches Operation::ADD { x, .. } && x is R8_A,
        executable(i),
    ensures
        ({
            let (m1, r) = execute_spec(m, i);
            let a = m.cpu.a;
            let v = src8(m, i.op->ADD_y);
            &&& r == Ok::<u64, EmulationError>(i.cycles)
            &&& m1.mem == m.mem
            &&& m1.cpu.a == a.wrapping_add(v)
            &&& m1.cpu.z() == (a.wrapping_add(v) == 0)
            &&& !m1.cpu.n()
            &&& m1.cpu.hf() == (a % 16 + v % 16 > 15)
            &&& m1.cpu.cf() == (a + v > 0xFF)
        }),
{
    reveal(alu_spec);
    let m0 = m.with_cpu(CpuState { pc: m.cpu.pc.wrapping_add(i.size), ..m.cpu });
    let v = src8(m, i.op->ADD_y);
    let a = m.cpu.a;
    let result = a.wrapping_add(v);
    assert(src8(m0, i.op->ADD_y) == v);
    assert(execute_spec(m, i) == operation_spec(m0, i));
    assert(operation_spec(m0, i) == (m0.with_cpu(add_a(m0.cpu, v)), Ok::<u64, EmulationError>(i.cycles)));
    crate::cpu::lemma_znhc(with_a(m0.cpu, result), result == 0, false, a % 16 + v % 16 > 15, a + v > 0xFF);
}

/// A call pushes the address of the instruction after it and jumps to its
/// target; a return that follows pops that address back into the program
/// counter and the stack pointer to its value before the call, when the two
/// bytes under the stack pointer are plain memory.
#[verifier::spinoff_prover]
#[verifier::rlimit(100)]
pub proof fn lemma_call_then_ret(m: Machine, call: Instruction, ret: Instruction)
    requires
        m.mem.wf(),
        call.op is CALL,
        ret.op is RET,
        executable(call),
        m.cpu.sp >= 2,
        crate::memory::is_plain_memory((m.cpu.sp - 2) as u16),
        crate::memory::is_plain_memory((m.cpu.sp - 1) as u16),
    ensures
        exec_defined(m, call),
        execute_spec(m, call).1 is Ok,
        execute_spec(m, call).0.cpu.pc == imm16_of(call.op->CALL_proc),
        execute_spec(m, call).0.cpu.sp == m.cpu.sp - 2,
        execute_spec(m, call).0.mem.read_word((m.cpu.sp - 2) as u16) == m.cpu.pc.wrapping_add(call.size),
        exec_defined(execute_spec(m, call).0, ret),
        execute_spec(execute_spec(m, call).0, ret).1 is Ok,
        execute_spec(execute_spec(m, call).0, ret).0.cpu.pc == m.cpu.pc.wrapping_add(call.size),
        execute_spec(execute_spec(m, call).0, ret).0.cpu.sp == m.cpu.sp,
{
    reveal(flow_spec);
    let m0 = m.with_cpu(CpuState { pc: m.cpu.pc.wrapping_add(call.size), ..m.cpu });
    let sp = (m.cpu.sp - 2) as u16;
    let back = m0.cpu.pc;
    assert(offset_u16(m.cpu.sp, -2i8) == sp);
    crate::memory::lemma_word_read_after_write(m.mem, sp, back);
    assert(execute_spec(m, call) == operation_spec(m0, call));
    assert(operation_spec(m0, call) == flow_spec(m0, call));
    assert(flow_spec(m0, call) == timed(call_outcome(m0, imm16_of(call.op->CALL_proc)), call.cycles));
    let m1 = execute_spec(m, call).0;
    assert(m1.mem == m.mem.write_word_outcome(sp, back).0);
    assert(m1.cpu.sp == sp);
    let m2 = m1.with_cpu(CpuState { pc: m1.cpu.pc.wrapping_add(ret.size), ..m1.cpu });
    assert(execute_spec(m1, ret) == operation_spec(m2, ret));
    assert(operation_spec(m2, ret) == flow_spec(m2, ret));
    assert(offset_u16(sp, 2i8) == m.cpu.sp);
}

/// INC and DEC of an 8-bit register change it by one modulo 256: Z tells a
/// zero result, N is cleared by INC and set by DEC, H tells a carry into or a
/// borrow from bit 4, and C and memory are left as they were.
#[verifier::spinoff_prover]
#[verifier::rlimit(50)]
pub proof fn lemma_inc_dec_flags(m: Machine, i: Instruction)
    requires
        (i.op is INC && is_r8(i.op->INC_x)) || (i.op is DEC && is_r8(i.op->DEC_x)),
        executable(i),
    ensures
        ({
            let (m1, r) = execute_spec(m, i);
            let inc = i.op is INC;
            let x = if inc { i.op->INC_x } else { i.op->DEC_x };
            let before = m.cpu.r8(x);
            let after = if inc { before.wrapping_add(1) } else { before.wrapping_sub(1) };
            &&& r == Ok::<u64, EmulationError>(i.cycles)
            &&& m1.mem == m.mem
            &&& m1.cpu.r8(x) == after
            &&& m1.cpu.z() == (after == 0)
            &&& m1.cpu.n() == !inc
            &&& m1.cpu.hf() == if inc { before % 16 == 15 } else { before % 16 == 0 }
            &&& m1.cpu.cf() == m.cpu.cf()
        }),
{
    reveal(inc_dec_spec);
    let m0 = m.with_cpu(CpuState { pc: m.cpu.pc.wrapping_add(i.size), ..m.cpu });
    assert(execute_spec(m, i) == operation_spec(m0, i));
    assert(operation_spec(m0, i) == inc_dec_spec(m0, i));
    match i.op {
        Operation::INC { x } => {
            let before = m.cpu.r8(x);
            let after = before.wrapping_add(1);
            assert(src8(m0, x) == before);
            let c1 = m0.cpu.with_r8(x, after);
            assert(c1.r8(x) == after && c1.f == m.cpu.f);
            assert(inc_outcome(m0, x) == (m0.with_cpu(inc_flags(c1, before, after)), Ok::<(), EmulationError>(())));
            let s1 = c1.with_z(after == 0);
            let s2 = s1.with_n(false);
            crate::cpu::lemma_flag_writes(c1, after == 0);
            crate::cpu::lemma_flag_writes(s1, false);
            crate::cpu::lemma_flag_writes(s2, before % 16 == 15);
            assert(s2.with_h(before % 16 == 15).r8(x) == after);
        },
        Operation::DEC { x } => {
            let before = m.cpu.r8(x);
            let after = before.wrapping_sub(1);
            assert(src8(m0, x) == before);
            let c1 = m0.cpu.with_r8(x, after);
            assert(c1.r8(x) == after && c1.f == m.cpu.f);
            assert(dec_outcome(m0, x) == (m0.with_cpu(dec_flags(c1, before, after)), Ok::<(), EmulationError>(())));
            let s1 = c1.with_z(after == 0);
            let s2 = s1.with_n(true);
            crate::cpu::lemma_flag_writes(c1, after == 0);
            crate::cpu::lemma_flag_writes(s1, true);
            crate::cpu::lemma_flag_writes(s2, before % 16 == 0);
            assert(s2.with_h(before % 16 == 0).r8(x) == after);
        },
        _ => {},
    }
}

/// A load through HL+ or HL- reads or writes the byte at HL, then moves HL by
/// one up or down; the flags are left as they were.
#[verifier::spinoff_prover]
#[verifier::rlimit(50)]
pub proof fn lemma_ld_hl_step(m: Machine, i: Instruction, p: Operand)
    requires
        m.mem.wf(),
        p is R16_HLI || p is R16_HLD,
        i.op == (Operation::LD { dst: Operand::PTR(Box::new(p)), src: Operand::R8_A }) || i.op
            == (Operation::LD { dst: Operand::R8_A, src: Operand::PTR(Box::new(p)) }),
        crate::memory::is_plain_memory(m.cpu.hl()),
    ensures
        ({
            let (m1, r) = execute_spec(m, i);
            let hl = m.cpu.hl();
            let stepped = if p is R16_HLI { hl.wrapping_add(1) } else { hl.wrapping_sub(1) };
            &&& r == Ok::<u64, EmulationError>(i.cycles)
            &&& m1.cpu.hl() == stepped
            &&& m1.cpu.f == m.cpu.f
            &&& (i.op->LD_dst is R8_A ==> m1.cpu.a == m.mem.read(hl) && m1.mem == m.mem)
            &&& (i.op->LD_src is R8_A ==> m1.mem.read(hl) == m.cpu.a && m1.cpu.a == m.cpu.a)
        }),
{
    reveal(load_spec);
    let m0 = m.with_cpu(CpuState { pc: m.cpu.pc.wrapping_add(i.size), ..m.cpu });
    let hl = m.cpu.hl();
    assert(m0.cpu.hl() == hl);
    assert(execute_spec(m, i) == operation_spec(m0, i));
    assert(operation_spec(m0, i) == load_spec(m0, i));
    crate::memory::lemma_read_after_write(m.mem, hl, m.cpu.a);
    crate::cpu::lemma_word_of_bytes(hl.wrapping_add(1));
    crate::cpu::lemma_word_of_bytes(hl.wrapping_sub(1));
    assert(ptr_address(m0.cpu, p) == hl);
}

/// Whether an instruction is a conditional branch whose condition holds.
pub open spec fn branch_taken(m: Machine, i: Instruction) -> bool {
    match i.op {
        Operation::JR_CC { cc, .. } => m.cpu.cc(cc),
        Operation::JP_CC { cc, .. } => m.cpu.cc(cc),
        Operation::CALL_CC { cc, .. } => m.cpu.cc(cc),
        Operation::RET_CC { cc } => m.cpu.cc(cc),
        _ => false,
    }
}

/// An instruction that runs takes its taken-branch cycle count when it is a
/// conditional branch whose condition holds, and its cycle count otherwise.
#[verifier::spinoff_prover]
#[verifier::rlimit(100)]
pub proof fn lemma_cycles_taken(m: Machine, i: Instruction)
    requires
        executable(i),
    ensures
        execute_spec(m, i).1 matches Ok(c) ==> c == if branch_taken(m, i) {
            i.branch_cycles.unwrap()
        } else {
            i.cycles
        },
{
    let m0 = m.with_cpu(CpuState { pc: m.cpu.pc.wrapping_add(i.size), ..m.cpu });
    assert(m0.cpu.f == m.cpu.f);
    assert(branch_taken(m0, i) == branch_taken(m, i));
    assert(execute_spec(m, i) == operation_spec(m0, i));
    match i.op {
        Operation::LD { .. } => {
            reveal(load_spec);
        },
        Operation::INC { .. } | Operation::DEC { .. } => {
            reveal(inc_dec_spec);
        },
        Operation::ADD { .. } | Operation::ADC { .. } | Operation::SUB { .. } | Operation::SBC { .. }
        | Operation::XOR { .. } | Operation::OR { .. } | Operation::AND { .. } | Operation::CP { .. } => {
            reveal(alu_spec);
        },
        Operation::BIT { .. } | Operation::RES { .. } | Operation::SET { .. } | Operation::SWAP { .. } => {
            reveal(bit_op_spec);
        },
        Operation::RL { .. } | Operation::RR { .. } | Operation::RLC { .. } | Operation::RRC { .. }
        | Operation::SRL { .. } | Operation::SLA { .. } => {
            reveal(shift_op_spec);
        },
        Operation::JR { .. } | Operation::JR_CC { .. } | Operation::JP { .. } | Operation::JP_CC { .. }
        | Operation::CALL { .. } | Operation::CALL_CC { .. } | Operation::RST { .. } | Operation::RET
        | Operation::RET_CC { .. } | Operation::RETI | Operation::PUSH { .. } | Operation::POP { .. } => {
            reveal(flow_spec);
        },
        _ => {
            reveal(control_spec);
        },
    }
}

/// OR leaves in A the bitwise inclusive-or of A and its operand; Z tells a
/// zero result and N, H and C are cleared; memory is left as it was.
#[verifier::spinoff_prover]
#[verifier::rlimit(50)]
pub proof fn lemma_or_flags(m: Machine, i: Instruction)
    requires
        i.op is OR,
        executable(i),
    ensures
        ({
            let (m1, r) = execute_spec(m, i);
            let a = m.cpu.a;
            let v = src8(m, i.op->OR_y);
            &&& r == Ok::<u64, EmulationError>(i.cycles)
            &&& m1.mem == m.mem
            &&& m1.cpu.a == a | v
            &&& m1.cpu.z() == ((a | v) == 0)
            &&& m1.cpu.n() == false
            &&& m1.cpu.hf() == false
            &&& m1.cpu.cf() == false
        }),
{
    reveal(alu_spec);
    let m0 = m.with_cpu(CpuState { pc: m.cpu.pc.wrapping_add(i.size), ..m.cpu });
    let v = src8(m, i.op->OR_y);
    let a = m.cpu.a;
    let result = a | v;
    assert(src8(m0, i.op->OR_y) == v);
    assert(execute_spec(m, i) == operation_spec(m0, i));
    assert(operation_spec(m0, i) == alu_spec(m0, i));
    crate::cpu::lemma_znhc(with_a(m0.cpu, result), ((a | v) == 0), false, false, false);
}

/// AND leaves in A the bitwise and of A and its operand; Z tells a zero
/// result, H is set and N and C are cleared; memory is left as it was.
#[verifier::spinoff_prover]
#[verifier::rlimit(50)]
pub proof fn lemma_and_flags(m: Machine, i: Instruction)
    requires
        i.op is AND,
        executable(i),
    ensures
        ({
            let (m1, r) = execute_spec(m, i);
            let a = m.cpu.a;
            let v = src8(m, i.op->AND_y);
            &&& r == Ok::<u64, EmulationError>(i.cycles)
            &&& m1.mem == m.mem
            &&& m1.cpu.a == a & v
            &&& m1.cpu.z() == ((a & v) == 0)
            &&& m1.cpu.n() == false
            &&& m1.cpu.hf() == true
            &&& m1.cpu.cf() == false
        }),
{
    reveal(alu_spec);
    let m0 = m.with_cpu(CpuState { pc: m.cpu.pc.wrapping_add(i.size), ..m.cpu });
    let v = src8(m, i.op->AND_y);
    let a = m.cpu.a;
    let result = a & v;
    assert(src8(m0, i.op->AND_y) == v);
    assert(execute_spec(m, i) == operation_spec(m0, i));
    assert(operation_spec(m0, i) == alu_spec(m0, i));
    crate::cpu::lemma_znhc(with_a(m0.cpu, result), ((a & v) == 0), false, true, false);
}

/// XOR leaves in A the bitwise exclusive-or of A and its operand; Z tells a
/// zero result and N, H and C are cleared; memory is left as it was.
#[verifier::spinoff_prover]
#[verifier::rlimit(50)]
pub proof fn lemma_xor_flags(m: Machine, i: Instruction)
    requires
        i.op is XOR,
        executable(i),
    ensures
        ({
            let (m1, r) = execute_spec(m, i);
            let a = m.cpu.a;
            let v = src8(m, i.op->XOR_y);
            &&& r == Ok::<u64, EmulationError>(i.cycles)
            &&& m1.mem == m.mem
            &&& m1.cpu.a == a ^ v
            &&& m1.cpu.z() == ((a ^ v) == 0)
            &&& m1.cpu.n() == false
            &&& m1.cpu.hf() == false
            &&& m1.cpu.cf() == false
        }),
{
    reveal(alu_spec);
    let m0 = m.with_cpu(CpuState { pc: m.cpu.pc.wrapping_add(i.size), ..m.cpu });
    let v = src8(m, i.op->XOR_y);
    let a = m.cpu.a;
    let result = a ^ v;
    assert(src8(m0, i.op->XOR_y) == v);
    assert(execute_spec(m, i) == operation_spec(m0, i));
    assert(operation_spec(m0, i) == alu_spec(m0, i));
    crate::cpu::lemma_znhc(with_a(m0.cpu, result), ((a ^ v) == 0), false, false, false);
}

/// SUB subtracts its operand from A modulo 256: Z tells a zero result, N is
/// set, H tells a borrow from bit 4 and C a borrow out of bit 7 (the operand
/// is larger than A); memory is left as it was.
#[verifier::spinoff_prover]
#[verifier::rlimit(50)]
pub proof fn lemma_sub_flags(m: Machine, i: Instruction)
    requires
        i.op is SUB,
        executable(i),
    ensures
        ({
            let (m1, r) = execute_spec(m, i);
            let a = m.cpu.a;
            let v = src8(m, i.op->SUB_y);
            &&& r == Ok::<u64, EmulationError>(i.cycles)
            &&& m1.mem == m.mem
            &&& m1.cpu.a == a.wrapping_sub(v)
            &&& m1.cpu.z() == (a == v)
            &&& m1.cpu.n() == true
            &&& m1.cpu.hf() == (a % 16 < v % 16)
            &&& m1.cpu.cf() == (a < v)
        }),
{
    reveal(alu_spec);
    let m0 = m.with_cpu(CpuState { pc: m.cpu.pc.wrapping_add(i.size), ..m.cpu });
    let v = src8(m, i.op->SUB_y);
    let a = m.cpu.a;
    let result = a.wrapping_sub(v);
    assert(src8(m0, i.op->SUB_y) == v);
    assert(execute_spec(m, i) == operation_spec(m0, i));
    assert(operation_spec(m0, i) == alu_spec(m0, i));
    crate::cpu::lemma_znhc(with_a(m0.cpu, result), (a == v), true, (a % 16 < v % 16), (a < v));
}

/// The result and carry out of a shift or rotation of byte `v` with carry
/// flag `c`, in bit operations: RL and RR rotate through the carry, RLC and
/// RRC rotate the byte itself, SLA shifts left and SRL shifts right.
pub open spec fn shifted_bits(op: Operation, v: u8, c: u8) -> (u8, bool) {
    match op {
        Operation::RL { .. } => ((v << 1u8) | c, v & 0x80 != 0),
        Operation::RR { .. } => ((v >> 1u8) | (c << 7u8), v & 1 != 0),
        Operation::RLC { .. } => ((v << 1u8) | (v >> 7u8), v & 0x80 != 0),
        Operation::RRC { .. } => ((v >> 1u8) | (v << 7u8), v & 1 != 0),
        Operation::SLA { .. } => (v << 1u8, v & 0x80 != 0),
        _ => (v >> 1u8, v & 1 != 0),
    }
}

/// A shift or rotation of an 8-bit register leaves in it the bits moved as
/// `shifted_bits` says: Z tells a zero result, N and H are cleared, C takes
/// the bit moved out; memory is left as it was.
#[verifier::spinoff_prover]
#[verifier::rlimit(100)]
pub proof fn lemma_shift_register(m: Machine, i: Instruction, x: Operand)
    requires
        is_r8(x),
        i.op == (Operation::RL { x }) || i.op == (Operation::RR { x }) || i.op == (Operation::RLC { x })
            || i.op == (Operation::RRC { x }) || i.op == (Operation::SLA { x }) || i.op == (Operation::SRL { x }),
    ensures
        ({
            let (m1, r) = execute_spec(m, i);
            let (result, carry) = shifted_bits(i.op, m.cpu.r8(x), if m.cpu.cf() { 1 } else { 0 });
            &&& r == Ok::<u64, EmulationError>(i.cycles)
            &&& m1.mem == m.mem
            &&& m1.cpu.r8(x) == result
            &&& m1.cpu.z() == (result == 0)
            &&& !m1.cpu.n()
            &&& !m1.cpu.hf()
            &&& m1.cpu.cf() == carry
        }),
{
    broadcast use crate::cpu::lemma_flag_writes;

    reveal(shift_op_spec);
    let m0 = m.with_cpu(CpuState { pc: m.cpu.pc.wrapping_add(i.size), ..m.cpu });
    let v = m.cpu.r8(x);
    let c: u8 = if m.cpu.cf() { 1 } else { 0 };
    assert(src8(m0, x) == v);
    assert(carry_value(m0.cpu) == c);
    crate::cpu::lemma_byte_bits(v, c);
    assert(shifted_bits(i.op, v, c) == shift_result(i.op, v, c));
    assert(execute_spec(m, i) == operation_spec(m0, i));
    assert(operation_spec(m0, i) == shift_op_spec(m0, i));
    let (result, carry) = shift_result(i.op, v, c);
    if i.op is SRL || i.op is SLA {
        crate::cpu::lemma_znhc(m0.cpu.with_r8(x, result), result == 0, false, false, carry);
        assert(shift_outcome(m0, i.op, x).0.cpu == m0.cpu.with_r8(x, result).with_znhc(result == 0, false, false, carry));
    } else {
        let c0 = m0.cpu.with_c(carry);
        let c1 = c0.with_r8(x, result);
        crate::cpu::lemma_flag_writes(m0.cpu, carry);
        assert(c1 == (CpuState { f: c0.f, ..c1 }));
        assert(c1.cf() == c0.cf());
        crate::cpu::lemma_znh(c1, result == 0, false, false);
        assert(shift_outcome(m0, i.op, x).0.cpu == c1.with_z(result == 0).with_n(false).with_h(false));
    }
    assert(shift_op_spec(m0, i) == timed(shift_outcome(m0, i.op, x), i.cycles));
}

/// BIT tests a bit of a register (Z is set when it is 0, N cleared, H set,
/// C kept); RES clears it, SET sets it, leaving the other bits; SWAP
/// exchanges the register's two nibbles (Z tells a zero result, the other
/// flags are cleared).
#[verifier::spinoff_prover]
#[verifier::rlimit(100)]
pub proof fn lemma_bit_operations(m: Machine, i: Instruction, x: Operand, bit: u8)
    requires
        is_r8(x),
        bit < 8,
        i.op == (Operation::BIT { bit, src: x }) || i.op == (Operation::RES { bit, x }) || i.op == (
        Operation::SET { bit, x }) || i.op == (Operation::SWAP { x }),
    ensures
        ({
            let (m1, r) = execute_spec(m, i);
            let v = m.cpu.r8(x);
            &&& r == Ok::<u64, EmulationError>(i.cycles)
            &&& m1.mem == m.mem
            &&& i.op is BIT ==> m1.cpu.z() == ((v >> bit) & 1 == 0) && !m1.cpu.n() && m1.cpu.hf()
                && m1.cpu.cf() == m.cpu.cf() && m1.cpu.r8(x) == v
            &&& i.op is RES ==> m1.cpu.r8(x) == v & !(1u8 << bit) && m1.cpu.f == m.cpu.f
            &&& i.op is SET ==> m1.cpu.r8(x) == v | (1u8 << bit) && m1.cpu.f == m.cpu.f
            &&& i.op is SWAP ==> m1.cpu.r8(x) == (v << 4u8) | (v >> 4u8) && m1.cpu.z() == (v == 0)
                && !m1.cpu.n() && !m1.cpu.hf() && !m1.cpu.cf()
        }),
{
    reveal(bit_op_spec);
    let m0 = m.with_cpu(CpuState { pc: m.cpu.pc.wrapping_add(i.size), ..m.cpu });
    let v = m.cpu.r8(x);
    assert(src8(m0, x) == v);
    assert(execute_spec(m, i) == operation_spec(m0, i));
    assert(operation_spec(m0, i) == bit_op_spec(m0, i));
    crate::cpu::lemma_byte_ops(v, 0);
    crate::cpu::lemma_bit_is_0_or_1(v, bit);
    match i.op {
        Operation::BIT { .. } => {
            let z = !crate::cpu::bit_of(v, bit);
            assert(z == ((v >> bit) & 1 == 0));
            crate::cpu::lemma_znh(m0.cpu, z, false, true);
            assert(bit_op_spec(m0, i) == (m0.with_cpu(m0.cpu.with_z(z).with_n(false).with_h(true)), Ok::<u64, EmulationError>(i.cycles)));
        },
        Operation::RES { .. } => {
            let nv = with_bit(v, bit, false);
            assert(nv == v & !(1u8 << bit));
            assert(bit_op_spec(m0, i) == timed(write_target(m0, x, nv), i.cycles));
            assert(m0.cpu.with_r8(x, nv).r8(x) == nv);
            assert(m0.cpu.with_r8(x, nv).f == m.cpu.f);
        },
        Operation::SET { .. } => {
            let nv = with_bit(v, bit, true);
            assert(nv == v | (1u8 << bit));
            assert(bit_op_spec(m0, i) == timed(write_target(m0, x, nv), i.cycles));
            assert(m0.cpu.with_r8(x, nv).r8(x) == nv);
            assert(m0.cpu.with_r8(x, nv).f == m.cpu.f);
        },
        _ => {
            let result = swap_nibbles(v);
            assert(result == (v << 4u8) | (v >> 4u8));
            let c1 = m0.cpu.with_r8(x, result);
            crate::cpu::lemma_znhc(c1, result == 0, false, false, false);
            assert(c1.r8(x) == result);
            assert(bit_op_spec(m0, i) == timed(then_cpu(write_target(m0, x, result), znhc(result == 0, false, false, false)), i.cycles));
        },
    }
}

/// The rotations of A: RLA and RRA through the carry, RLCA and RRCA of A
/// itself; C takes the bit moved out and Z, N and H are cleared.
#[verifier::spinoff_prover]
#[verifier::rlimit(100)]
pub proof fn lemma_rotate_a(m: Machine, i: Instruction)
    requires
        i.op is RLA || i.op is RRA || i.op is RLCA || i.op is RRCA,
    ensures
        ({
            let (m1, r) = execute_spec(m, i);
            let v = m.cpu.a;
            let c: u8 = if m.cpu.cf() { 1 } else { 0 };
            let result = if i.op is RLA {
                (v << 1u8) | c
            } else if i.op is RRA {
                (v >> 1u8) | (c << 7u8)
            } else if i.op is RLCA {
                (v << 1u8) | (v >> 7u8)
            } else {
                (v >> 1u8) | (v << 7u8)
            };
            let carry = if i.op is RLA || i.op is RLCA { v & 0x80 != 0 } else { v & 1 != 0 };
            &&& r == Ok::<u64, EmulationError>(i.cycles)
            &&& m1.mem == m.mem
            &&& m1.cpu.a == result
            &&& !m1.cpu.z() && !m1.cpu.n() && !m1.cpu.hf()
            &&& m1.cpu.cf() == carry
        }),
{
    broadcast use crate::cpu::lemma_flag_writes;

    reveal(control_spec);
    let m0 = m.with_cpu(CpuState { pc: m.cpu.pc.wrapping_add(i.size), ..m.cpu });
    let v = m.cpu.a;
    let c: u8 = if m.cpu.cf() { 1 } else { 0 };
    assert(carry_value(m0.cpu) == c);
    crate::cpu::lemma_byte_bits(v, c);
    assert(execute_spec(m, i) == operation_spec(m0, i));
    assert(operation_spec(m0, i) == control_spec(m0, i));
    assert(control_spec(m0, i) == (m0.with_cpu(rotate_a(m0.cpu, i.op)), Ok::<u64, EmulationError>(i.cycles)));
    let carry = if i.op is RLA || i.op is RLCA { v >= 128 } else { v % 2 == 1 };
    let c0 = m0.cpu.with_c(carry);
    crate::cpu::lemma_flag_writes(m0.cpu, carry);
    let result = rotate_a(m0.cpu, i.op).a;
    crate::cpu::lemma_znh(with_a(c0, result), false, false, false);
}

/// ADC adds its operand and the carry flag to A modulo 256, SBC subtracts
/// them: Z tells a zero result, N is cleared by ADC and set by SBC, and C
/// tells a carry out of bit 7 (ADC) or a borrow (the operand and carry exceed
/// A, SBC); memory is left as it was.
#[verifier::spinoff_prover]
#[verifier::rlimit(100)]
pub proof fn lemma_adc_sbc_flags(m: Machine, i: Instruction)
    requires
        i.op is ADC || i.op is SBC,
    ensures
        ({
            let (m1, r) = execute_spec(m, i);
            let a = m.cpu.a;
            let c: u8 = if m.cpu.cf() { 1 } else { 0 };
            let adc = i.op is ADC;
            let v = src8(m, if adc { i.op->ADC_y } else { i.op->SBC_y });
            let result = if adc { a.wrapping_add(v).wrapping_add(c) } else { a.wrapping_sub(v).wrapping_sub(c) };
            &&& r == Ok::<u64, EmulationError>(i.cycles)
            &&& m1.mem == m.mem
            &&& m1.cpu.a == result
            &&& m1.cpu.z() == (result == 0)
            &&& m1.cpu.n() == !adc
            &&& m1.cpu.cf() == if adc { a + v + c > 0xFF } else { a < v + c }
        }),
{
    reveal(alu_spec);
    let m0 = m.with_cpu(CpuState { pc: m.cpu.pc.wrapping_add(i.size), ..m.cpu });
    let a = m.cpu.a;
    let c: u8 = if m.cpu.cf() { 1 } else { 0 };
    assert(carry_value(m0.cpu) == c);
    assert(execute_spec(m, i) == operation_spec(m0, i));
    assert(operation_spec(m0, i) == alu_spec(m0, i));
    match i.op {
        Operation::ADC { y } => {
            let v = src8(m, y);
            assert(src8(m0, y) == v);
            let result = a.wrapping_add(v).wrapping_add(c);
            crate::cpu::lemma_znhc(with_a(m0.cpu, result), result == 0, false, a % 16 + (v + c) % 16 > 15, a + v + c > 0xFF);
        },
        Operation::SBC { y } => {
            let v = src8(m, y);
            assert(src8(m0, y) == v);
            let result = a.wrapping_sub(v).wrapping_sub(c);
            crate::cpu::lemma_znhc(with_a(m0.cpu, result), result == 0, true, a % 16 < v % 16 + c, a < v + c);
        },
        _ => {},
    }
}

/// Where jumps, calls, restarts and returns go: JP to its address (or to
/// HL), a taken JP cc to its address; CALL, a taken CALL cc and RST to their
/// target; RET, a taken RET cc and RETI to the word on top of the stack,
/// with the stack pointer moved up by two (RETI also enables interrupts).
#[verifier::spinoff_prover]
#[verifier::rlimit(100)]
pub proof fn lemma_jump_targets(m: Machine, i: Instruction)
    requires
        executable(i),
    ensures
        ({
            let (m1, r) = execute_spec(m, i);
            &&& i.op is JP ==> m1.cpu.pc == if i.op->JP_addr is IMM16 { imm16_of(i.op->JP_addr) } else { m.cpu.hl() }
            &&& (i.op is JP_CC && m.cpu.cc(i.op->JP_CC_cc)) ==> m1.cpu.pc == if i.op->JP_CC_addr is IMM16 {
                imm16_of(i.op->JP_CC_addr)
            } else {
                m.cpu.hl()
            }
            &&& (i.op is CALL && r is Ok) ==> m1.cpu.pc == imm16_of(i.op->CALL_proc)
            &&& (i.op is CALL_CC && m.cpu.cc(i.op->CALL_CC_cc) && r is Ok) ==> m1.cpu.pc == imm16_of(i.op->CALL_CC_proc)
            &&& (i.op is RST && r is Ok) ==> m1.cpu.pc == imm16_of(i.op->RST_addr)
            &&& i.op is RET ==> m1.cpu.pc == m.mem.read_word(m.cpu.sp) && m1.cpu.sp == offset_u16(m.cpu.sp, 2)
            &&& (i.op is RET_CC && m.cpu.cc(i.op->RET_CC_cc)) ==> m1.cpu.pc == m.mem.read_word(m.cpu.sp) && m1.cpu.sp
                == offset_u16(m.cpu.sp, 2)
            &&& i.op is RETI ==> m1.cpu.pc == m.mem.read_word(m.cpu.sp) && m1.cpu.sp == offset_u16(m.cpu.sp, 2) && m1.cpu.ime
        }),
{
    reveal(flow_spec);
    let m0 = m.with_cpu(CpuState { pc: m.cpu.pc.wrapping_add(i.size), ..m.cpu });
    assert(m0.cpu.hl() == m.cpu.hl());
    assert(m0.cpu.f == m.cpu.f);
    assert(execute_spec(m, i) == operation_spec(m0, i));
}

/// NOP changes nothing but the program counter; DI disables and EI enables
/// interrupts; CPL complements A and sets N and H, keeping Z and C; HALT
/// stops the processor when interrupts are enabled or none is pending.
#[verifier::spinoff_prover]
#[verifier::rlimit(100)]
pub proof fn lemma_control_operations(m: Machine, i: Instruction)
    requires
        i.op is NOP || i.op is DI || i.op is EI || i.op is CPL || i.op is HALT,
    ensures
        ({
            let (m1, r) = execute_spec(m, i);
            &&& r == Ok::<u64, EmulationError>(i.cycles)
            &&& m1.mem == m.mem
            &&& i.op is NOP ==> m1 == m.with_cpu(CpuState { pc: m.cpu.pc.wrapping_add(i.size), ..m.cpu })
            &&& i.op is DI ==> !m1.cpu.ime && m1.cpu.a == m.cpu.a && m1.cpu.f == m.cpu.f
            &&& i.op is EI ==> m1.cpu.ime && m1.cpu.a == m.cpu.a && m1.cpu.f == m.cpu.f
            &&& i.op is CPL ==> m1.cpu.a == !m.cpu.a && m1.cpu.n() && m1.cpu.hf() && m1.cpu.z() == m.cpu.z()
                && m1.cpu.cf() == m.cpu.cf()
            &&& i.op is HALT ==> m1.halted == (m.cpu.ime || m.mem.ie & m.mem.io[0x0F] == 0 || m.halted)
        }),
{
    broadcast use crate::cpu::lemma_flag_writes;

    reveal(control_spec);
    let m0 = m.with_cpu(CpuState { pc: m.cpu.pc.wrapping_add(i.size), ..m.cpu });
    assert(execute_spec(m, i) == operation_spec(m0, i));
    assert(operation_spec(m0, i) == control_spec(m0, i));
    if i.op is CPL {
        let c0 = with_a(m0.cpu, !m0.cpu.a);
        let c1 = c0.with_n(true);
        crate::cpu::lemma_flag_writes(c0, true);
        crate::cpu::lemma_flag_writes(c1, true);
    }
}

/// Loads between registers: LD r, r' copies r' into r, LD r, n puts n in r,
/// and LD rr, nn puts nn in the pair; the flags are left as they were.
#[verifier::spinoff_prover]
#[verifier::rlimit(100)]
pub proof fn lemma_register_loads(m: Machine, i: Instruction, dst: Operand, src: Operand)
    requires
        i.op == (Operation::LD { dst, src }),
        (is_r8(dst) && (is_r8(src) || src is IMM8)) || ((dst is R16_BC || dst is R16_DE || dst is R16_HL
            || dst is R16_SP) && src is IMM16),
    ensures
        ({
            let (m1, r) = execute_spec(m, i);
            &&& r == Ok::<u64, EmulationError>(i.cycles)
            &&& m1.mem == m.mem
            &&& m1.cpu.f == m.cpu.f
            &&& is_r8(src) ==> m1.cpu.r8(dst) == m.cpu.r8(src)
            &&& src matches Operand::IMM8(v) ==> m1.cpu.r8(dst) == v
            &&& src matches Operand::IMM16(v) ==> m1.cpu.r16(dst) == v
        }),
{
    reveal(load_spec);
    let m0 = m.with_cpu(CpuState { pc: m.cpu.pc.wrapping_add(i.size), ..m.cpu });
    assert(execute_spec(m, i) == operation_spec(m0, i));
    assert(operation_spec(m0, i) == load_spec(m0, i));
    assert(load_spec(m0, i) == timed(ld_outcome(m0, dst, src), i.cycles));
    assert(m0.cpu.r8(src) == m.cpu.r8(src));
    if src is IMM16 {
        crate::cpu::lemma_register_write_read(m0.cpu, dst, dst, 0, imm16_of(src));
    }
}

} // verus!
