use vstd::prelude::*;

use crate::gameboy::Gameboy;
use crate::memory::MemState;
use crate::text::{hex_u16_text, hex_u8_text, push_hex_u16, push_hex_u8};

verus! {

// A first, small decoder: the handful of instructions the boot code starts with.

/// A register operand.
#[allow(non_camel_case_types)]
#[derive(Debug, Clone, Copy, PartialEq, Eq, Structural)]
pub enum Operand {
    R8_A,
    R8_B,
    R8_C,
    R8_D,
    R8_E,
    R8_H,
    R8_L,
    R16_BC,
    R16_DE,
    R16_HL,
    R16_SP,
}

/// The operation of an instruction, with its operands.
#[allow(non_camel_case_types)]
#[derive(Debug, Clone, Copy, PartialEq, Eq, Structural)]
pub enum Operation {
    NOP,
    LD_R16_IMM16 { r16: Operand, imm16: u16 },
    LD_R8_IMM8 { r8: Operand, imm8: u8 },
    DEC_R8 { r8: Operand },
    JP_IMM16 { imm16: u16 },
}

/// A decoded instruction and its size in bytes.
#[derive(Debug, Clone, Copy, PartialEq, Eq, Structural)]
pub struct Instruction {
    pub op: Operation,
    pub size: u16,
}

/// Whether the opcode at `address` is one this decoder knows, and the bytes
/// it takes after it can be read.
pub open spec fn decodable(mem: MemState, address: u16) -> bool {
    mem.wf() && mem.readable(address) && {
        let opcode = mem.read(address);
        if opcode == 0x00 || opcode == 0x05 || opcode == 0x0D {
            true
        } else if opcode == 0x06 || opcode == 0x0E {
            address < 0xFFFF && mem.readable((address + 1) as u16)
        } else if opcode == 0x01 || opcode == 0x11 || opcode == 0x21 || opcode == 0x31 || opcode == 0xC3 {
            address < 0xFFFF && mem.word_readable((address + 1) as u16)
        } else {
            false
        }
    }
}

/// The instruction at `address`: nop, `ld r16, imm16` into BC, DE, HL or SP,
/// `dec b`, `dec c`, `ld b, imm8`, `ld c, imm8` and `jp imm16`.
pub open spec fn decoded(mem: MemState, address: u16) -> Instruction {
    let opcode = mem.read(address);
    let imm8 = mem.read((address + 1) as u16);
    let imm16 = mem.read_word((address + 1) as u16);
    if opcode == 0x00 {
        Instruction { op: Operation::NOP, size: 1 }
    } else if opcode == 0x01 {
        Instruction { op: Operation::LD_R16_IMM16 { r16: Operand::R16_BC, imm16 }, size: 3 }
    } else if opcode == 0x05 {
        Instruction { op: Operation::DEC_R8 { r8: Operand::R8_B }, size: 1 }
    } else if opcode == 0x06 {
        Instruction { op: Operation::LD_R8_IMM8 { r8: Operand::R8_B, imm8 }, size: 2 }
    } else if opcode == 0x0D {
        Instruction { op: Operation::DEC_R8 { r8: Operand::R8_C }, size: 1 }
    } else if opcode == 0x0E {
        Instruction { op: Operation::LD_R8_IMM8 { r8: Operand::R8_C, imm8 }, size: 2 }
    } else if opcode == 0x11 {
        Instruction { op: Operation::LD_R16_IMM16 { r16: Operand::R16_DE, imm16 }, size: 3 }
    } else if opcode == 0x21 {
        Instruction { op: Operation::LD_R16_IMM16 { r16: Operand::R16_HL, imm16 }, size: 3 }
    } else if opcode == 0x31 {
        Instruction { op: Operation::LD_R16_IMM16 { r16: Operand::R16_SP, imm16 }, size: 3 }
    } else {
        Instruction { op: Operation::JP_IMM16 { imm16 }, size: 3 }
    }
}

/// Decodes the instruction at the program counter.
pub fn decode_next_instruction(console: &Gameboy) -> (i: Instruction)
    requires
        console@.wf(),
        decodable(console@.machine.mem, console@.machine.cpu.pc),
    ensures
        i == decoded(console@.machine.mem, console@.machine.cpu.pc),
{
    let pc = console.cpu().read_program_counter();
    decode_instruction(console, pc)
}

/// Decodes the instruction at `address`.
pub fn decode_instruction(console: &Gameboy, address: u16) -> (i: Instruction)
    requires
        console@.wf(),
        decodable(console@.machine.mem, address),
    ensures
        i == decoded(console@.machine.mem, address),
{
    let instr = console.memory().read_byte(address);
    match instr {
        0x00 => Instruction { op: Operation::NOP, size: 1 },
        0x01 => {
            // ld bc, imm16
            Instruction {
                op: Operation::LD_R16_IMM16 {
                    r16: Operand::R16_BC,
                    imm16: console.memory().read_word(address + 1),
                },
                size: 3,
            }
        },
        0x05 => {
            // dec b
            Instruction { op: Operation::DEC_R8 { r8: Operand::R8_B }, size: 1 }
        },
        0x06 => {
            // ld b, imm8
            Instruction {
                op: Operation::LD_R8_IMM8 { r8: Operand::R8_B, imm8: console.memory().read_byte(address + 1) },
                size: 2,
            }
        },
        0x0D => {
            // dec c
            Instruction { op: Operation::DEC_R8 { r8: Operand::R8_C }, size: 1 }
        },
        0x0E => {
            // ld c, imm8
            Instruction {
                op: Operation::LD_R8_IMM8 { r8: Operand::R8_C, imm8: console.memory().read_byte(address + 1) },
                size: 2,
            }
        },
        0x11 => {
            // ld de, imm16
            Instruction {
                op: Operation::LD_R16_IMM16 {
                    r16: Operand::R16_DE,
                    imm16: console.memory().read_word(address + 1),
                },
                size: 3,
            }
        },
        0x21 => {
            // ld hl, imm16
            Instruction {
                op: Operation::LD_R16_IMM16 {
                    r16: Operand::R16_HL,
                    imm16: console.memory().read_word(address + 1),
                },
                size: 3,
            }
        },
        0x31 => {
            // ld sp, imm16
            Instruction {
                op: Operation::LD_R16_IMM16 {
                    r16: Operand::R16_SP,
                    imm16: console.memory().read_word(address + 1),
                },
                size: 3,
            }
        },
        _ => {
            // jp imm16
            Instruction { op: Operation::JP_IMM16 { imm16: console.memory().read_word(address + 1) }, size: 3 }
        },
    }
}

/// The name of a register operand.
pub open spec fn operand_name(o: Operand) -> Seq<char> {
    match o {
        Operand::R8_A => "a"@,
        Operand::R8_B => "b"@,
        Operand::R8_C => "c"@,
        Operand::R8_D => "d"@,
        Operand::R8_E => "e"@,
        Operand::R8_H => "h"@,
        Operand::R8_L => "l"@,
        Operand::R16_BC => "bc"@,
        Operand::R16_DE => "de"@,
        Operand::R16_HL => "hl"@,
        Operand::R16_SP => "sp"@,
    }
}

/// The assembly text of an instruction.
pub open spec fn assembly_text(instr: Instruction) -> Seq<char> {
    match instr.op {
        Operation::NOP => "nop"@,
        Operation::LD_R16_IMM16 { r16, imm16 } => "ld "@ + operand_name(r16) + ", "@ + hex_u16_text(imm16),
        Operation::LD_R8_IMM8 { r8, imm8 } => "ld "@ + operand_name(r8) + ", "@ + hex_u8_text(imm8),
        Operation::DEC_R8 { r8 } => "dec "@ + operand_name(r8),
        Operation::JP_IMM16 { imm16 } => "jp "@ + hex_u16_text(imm16),
    }
}

/// The assembly text of an instruction.
pub fn get_instruction_assembly(instr: &Instruction) -> (s: String)
    ensures
        s@ == assembly_text(*instr),
{
    let mut s = String::new();
    match &instr.op {
        Operation::NOP => s.append("nop"),
        Operation::LD_R16_IMM16 { r16, imm16 } => {
            s.append("ld ");
            s.append(operand_to_str(r16));
            s.append(", ");
            push_hex_u16(&mut s, *imm16);
        },
        Operation::LD_R8_IMM8 { r8, imm8 } => {
            s.append("ld ");
            s.append(operand_to_str(r8));
            s.append(", ");
            push_hex_u8(&mut s, *imm8);
        },
        Operation::DEC_R8 { r8 } => {
            s.append("dec ");
            s.append(operand_to_str(r8));
        },
        Operation::JP_IMM16 { imm16 } => {
            s.append("jp ");
            push_hex_u16(&mut s, *imm16);
        },
    }
    assert(s@ =~= assembly_text(*instr));
    s
}

impl Instruction {
    /// The assembly text of the instruction.
    pub fn to_string(&self) -> (s: String)
        ensures
            s@ == assembly_text(*self),
    {
        get_instruction_assembly(self)
    }
}

/// The name of a register operand.
fn operand_to_str(operand: &Operand) -> (s: &'static str)
    ensures
        s@ == operand_name(*operand),
{
    match operand {
        Operand::R8_A => "a",
        Operand::R8_B => "b",
        Operand::R8_C => "c",
        Operand::R8_D => "d",
        Operand::R8_E => "e",
        Operand::R8_H => "h",
        Operand::R8_L => "l",
        Operand::R16_BC => "bc",
        Operand::R16_DE => "de",
        Operand::R16_HL => "hl",
        Operand::R16_SP => "sp",
    }
}

} // verus!
