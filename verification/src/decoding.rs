use vstd::prelude::*;

use crate::error::{EmulationError, EmulationErrorType};
use crate::gameboy::Gameboy;

verus! {

/// An operand of an instruction.
#[allow(non_camel_case_types)]
#[derive(Debug)]
pub enum Operand {
    R8_A,
    R8_B,
    R8_C,
    R8_D,
    R8_E,
    R8_H,
    R8_L,
    R16_BC,
    R16_DE,
    R16_HL,
    R16_AF,
    R16_SP,
    R16_HLD,
    R16_HLI,
    CC_NZ,
    CC_Z,
    CC_NC,
    CC_C,
    IMM8(u8),
    IMM8_SIGNED(i8),
    IMM16(u16),
    SP_PLUS_SIGNED_IMM8(i8),
    PTR(Box<Operand>),
}

/// The operation performed by an instruction, with its operands.
#[allow(non_camel_case_types)]
#[derive(Debug)]
pub enum Operation {
    NOP,
    LD { dst: Operand, src: Operand },
    JP { addr: Operand },
    JP_CC { cc: Operand, addr: Operand },
    JR { offset_oprd: Operand },
    JR_CC { cc: Operand, offset_oprd: Operand },
    CALL { proc: Operand },
    CALL_CC { cc: Operand, proc: Operand },
    RST { addr: Operand },
    RET,
    RET_CC { cc: Operand },
    RETI,
    PUSH { reg: Operand },
    POP { reg: Operand },
    DEC { x: Operand },
    INC { x: Operand },
    ADD { x: Operand, y: Operand },
    SUB { y: Operand },
    ADC { y: Operand },
    SBC { y: Operand },
    OR { y: Operand },
    XOR { y: Operand },
    AND { y: Operand },
    BIT { bit: u8, src: Operand },
    RES { bit: u8, x: Operand },
    SET { bit: u8, x: Operand },
    SWAP { x: Operand },
    RL { x: Operand },
    RR { x: Operand },
    RLC { x: Operand },
    RRC { x: Operand },
    RLA,
    RRA,
    RLCA,
    RRCA,
    DAA,
    SRL { x: Operand },
    SLA { x: Operand },
    CP { y: Operand },
    DI,
    EI,
    CPL,
    HALT,
}

/// A decoded instruction.
#[derive(Debug)]
pub struct Instruction {
    pub op: Operation,
    /// Size of the instruction in bytes.
    pub size: u16,
    /// Machine cycles taken when no branch is taken.
    pub cycles: u64,
    /// Machine cycles taken when a conditional branch is taken.
    pub branch_cycles: Option<u64>,
}

/// Whether the operand names one of the seven 8-bit registers.
pub open spec fn is_r8(o: Operand) -> bool {
    o is R8_A || o is R8_B || o is R8_C || o is R8_D || o is R8_E || o is R8_H || o is R8_L
}

/// Whether the operand is a condition code.
pub open spec fn is_cc(o: Operand) -> bool {
    o is CC_NZ || o is CC_Z || o is CC_NC || o is CC_C
}


// https://gbdev.io/gb-opcodes/optables/
// An opcode is read as three fields: x = bits 7-6, y = bits 5-3, z = bits 2-0,
// with y = 2 * p + q.

/// The 8-bit operand encoded by a 3-bit register field.
pub open spec fn r8_field(i: int) -> Operand {
    if i == 0 {
        Operand::R8_B
    } else if i == 1 {
        Operand::R8_C
    } else if i == 2 {
        Operand::R8_D
    } else if i == 3 {
        Operand::R8_E
    } else if i == 4 {
        Operand::R8_H
    } else if i == 5 {
        Operand::R8_L
    } else if i == 6 {
        Operand::PTR(Box::new(Operand::R16_HL))
    } else {
        Operand::R8_A
    }
}

/// The 16-bit register encoded by a 2-bit register pair field.
pub open spec fn r16_field(p: int) -> Operand {
    if p == 0 {
        Operand::R16_BC
    } else if p == 1 {
        Operand::R16_DE
    } else if p == 2 {
        Operand::R16_HL
    } else {
        Operand::R16_SP
    }
}

/// The register pair encoded in a push or pop.
pub open spec fn r16_stack_field(p: int) -> Operand {
    if p == 3 {
        Operand::R16_AF
    } else {
        r16_field(p)
    }
}

/// The condition encoded by a 2-bit condition field.
pub open spec fn cc_field(i: int) -> Operand {
    if i == 0 {
        Operand::CC_NZ
    } else if i == 1 {
        Operand::CC_Z
    } else if i == 2 {
        Operand::CC_NC
    } else {
        Operand::CC_C
    }
}

/// The accumulator operation encoded by a 3-bit field, or `None` when it is not decoded.
pub open spec fn alu_op(y: int, operand: Operand) -> Option<Operation> {
    if y == 0 {
        Some(Operation::ADD { x: Operand::R8_A, y: operand })
    } else if y == 1 {
        Some(Operation::ADC { y: operand })
    } else if y == 2 {
        Some(Operation::SUB { y: operand })
    } else if y == 4 {
        Some(Operation::AND { y: operand })
    } else if y == 5 {
        Some(Operation::XOR { y: operand })
    } else if y == 6 {
        Some(Operation::OR { y: operand })
    } else if y == 7 {
        Some(Operation::CP { y: operand })
    } else {
        None
    }
}

pub open spec fn instr(op: Operation, size: u16, cycles: u64) -> Option<Instruction> {
    Some(Instruction { op, size, cycles, branch_cycles: None })
}

pub open spec fn branch_instr(op: Operation, size: u16, cycles: u64, taken: u64) -> Option<Instruction> {
    Some(Instruction { op, size, cycles, branch_cycles: Some(taken) })
}

/// Cycles of an instruction that takes `base` cycles, or `base + extra`
/// when its 3-bit register field names the byte pointed to by HL.
pub open spec fn hl_cycles(field: int, base: u64, extra: u64) -> u64 {
    if field == 6 { (base + extra) as u64 } else { base }
}

/// The instruction encoded by an unprefixed opcode, followed by the bytes
/// `imm8` and `imm16` (little-endian); `None` for opcodes that are not decoded.
pub open spec fn decode_unprefixed(opcode: u8, imm8: u8, imm16: u16) -> Option<Instruction> {
    let x = opcode as int / 64;
    let y = (opcode as int / 8) % 8;
    let z = opcode as int % 8;
    let p = y / 2;
    let q = y % 2;
    if x == 0 {
        if z == 0 {
            if y == 0 {
                instr(Operation::NOP, 1, 4)
            } else if y == 3 {
                instr(Operation::JR { offset_oprd: Operand::IMM8_SIGNED(imm8 as i8) }, 2, 12)
            } else if y >= 4 {
                branch_instr(
                    Operation::JR_CC { cc: cc_field(y - 4), offset_oprd: Operand::IMM8_SIGNED(imm8 as i8) },
                    2,
                    8,
                    12,
                )
            } else {
                None
            }
        } else if z == 1 {
            if q == 0 {
                instr(Operation::LD { dst: r16_field(p), src: Operand::IMM16(imm16) }, 3, 12)
            } else {
                instr(Operation::ADD { x: Operand::R16_HL, y: r16_field(p) }, 1, 8)
            }
        } else if z == 2 {
            let ptr = if p == 0 {
                Operand::R16_BC
            } else if p == 1 {
                Operand::R16_DE
            } else if p == 2 {
                Operand::R16_HLI
            } else {
                Operand::R16_HLD
            };
            if q == 0 {
                instr(Operation::LD { dst: Operand::PTR(Box::new(ptr)), src: Operand::R8_A }, 1, 8)
            } else {
                instr(Operation::LD { dst: Operand::R8_A, src: Operand::PTR(Box::new(ptr)) }, 1, 8)
            }
        } else if z == 3 {
            if q == 0 {
                instr(Operation::INC { x: r16_field(p) }, 1, 8)
            } else {
                instr(Operation::DEC { x: r16_field(p) }, 1, 8)
            }
        } else if z == 4 {
            instr(Operation::INC { x: r8_field(y) }, 1, hl_cycles(y, 4, 8))
        } else if z == 5 {
            instr(Operation::DEC { x: r8_field(y) }, 1, hl_cycles(y, 4, 8))
        } else if z == 6 {
            instr(Operation::LD { dst: r8_field(y), src: Operand::IMM8(imm8) }, 2, hl_cycles(y, 8, 4))
        } else {
            if y == 1 {
                instr(Operation::RRCA, 1, 4)
            } else if y == 2 {
                instr(Operation::RLA, 1, 4)
            } else if y == 3 {
                instr(Operation::RRA, 1, 4)
            } else if y == 5 {
                instr(Operation::CPL, 1, 4)
            } else {
                None
            }
        }
    } else if x == 1 {
        if y == 6 && z == 6 {
            instr(Operation::HALT, 1, 4)
        } else {
            instr(
                Operation::LD { dst: r8_field(y), src: r8_field(z) },
                1,
                if y == 6 || z == 6 { 8 } else { 4 },
            )
        }
    } else if x == 2 {
        match alu_op(y, r8_field(z)) {
            Some(op) => instr(op, 1, hl_cycles(z, 4, 4)),
            None => None,
        }
    } else {
        if z == 0 {
            if y < 4 {
                branch_instr(Operation::RET_CC { cc: cc_field(y) }, 1, 8, 20)
            } else if y == 4 {
                instr(Operation::LD { dst: Operand::PTR(Box::new(Operand::IMM8(imm8))), src: Operand::R8_A }, 2, 12)
            } else if y == 6 {
                instr(Operation::LD { dst: Operand::R8_A, src: Operand::PTR(Box::new(Operand::IMM8(imm8))) }, 2, 12)
            } else if y == 7 {
                instr(Operation::LD { dst: Operand::R16_HL, src: Operand::SP_PLUS_SIGNED_IMM8(imm8 as i8) }, 2, 12)
            } else {
                None
            }
        } else if z == 1 {
            if q == 0 {
                instr(Operation::POP { reg: r16_stack_field(p) }, 1, 12)
            } else if p == 0 {
                instr(Operation::RET, 1, 16)
            } else if p == 1 {
                instr(Operation::RETI, 1, 16)
            } else if p == 2 {
                instr(Operation::JP { addr: Operand::R16_HL }, 1, 4)
            } else {
                instr(Operation::LD { dst: Operand::R16_SP, src: Operand::R16_HL }, 1, 8)
            }
        } else if z == 2 {
            if y < 2 {
                branch_instr(Operation::JP_CC { cc: cc_field(y), addr: Operand::IMM16(imm16) }, 3, 12, 16)
            } else if y == 4 {
                instr(Operation::LD { dst: Operand::PTR(Box::new(Operand::R8_C)), src: Operand::R8_A }, 1, 8)
            } else if y == 5 {
                instr(Operation::LD { dst: Operand::PTR(Box::new(Operand::IMM16(imm16))), src: Operand::R8_A }, 3, 16)
            } else if y == 6 {
                instr(Operation::LD { dst: Operand::R8_A, src: Operand::PTR(Box::new(Operand::R8_C)) }, 1, 8)
            } else if y == 7 {
                instr(Operation::LD { dst: Operand::R8_A, src: Operand::PTR(Box::new(Operand::IMM16(imm16))) }, 3, 16)
            } else {
                None
            }
        } else if z == 3 {
            if y == 0 {
                instr(Operation::JP { addr: Operand::IMM16(imm16) }, 3, 16)
            } else if y == 6 {
                instr(Operation::DI, 1, 4)
            } else if y == 7 {
                instr(Operation::EI, 1, 4)
            } else {
                None
            }
        } else if z == 4 {
            if y < 4 {
                branch_instr(Operation::CALL_CC { cc: cc_field(y), proc: Operand::IMM16(imm16) }, 3, 12, 24)
            } else {
                None
            }
        } else if z == 5 {
            if q == 0 {
                instr(Operation::PUSH { reg: r16_stack_field(p) }, 1, 16)
            } else if p == 0 {
                instr(Operation::CALL { proc: Operand::IMM16(imm16) }, 3, 24)
            } else {
                None
            }
        } else if z == 6 {
            match alu_op(y, Operand::IMM8(imm8)) {
                Some(op) => instr(op, 2, 8),
                None => None,
            }
        } else {
            instr(Operation::RST { addr: Operand::IMM16((y * 8) as u16) }, 1, 16)
        }
    }
}

/// The instruction encoded by the byte following the 0xCB prefix, or `None`
/// when it is not decoded.
pub open spec fn decode_prefixed(cb: u8) -> Option<Instruction> {
    let x = cb as int / 64;
    let y = (cb as int / 8) % 8;
    let z = cb as int % 8;
    let target = r8_field(z);
    let cycles = hl_cycles(z, 8, 8);
    if x == 0 {
        if y == 2 && z == 1 {
            instr(Operation::RL { x: target }, 2, cycles)
        } else if y == 3 {
            instr(Operation::RR { x: target }, 2, cycles)
        } else if y == 4 {
            instr(Operation::SLA { x: target }, 2, cycles)
        } else if y == 6 {
            instr(Operation::SWAP { x: target }, 2, cycles)
        } else if y == 7 {
            instr(Operation::SRL { x: target }, 2, cycles)
        } else {
            None
        }
    } else if x == 1 {
        instr(Operation::BIT { bit: y as u8, src: target }, 2, cycles)
    } else if x == 2 {
        instr(Operation::RES { bit: y as u8, x: target }, 2, cycles)
    } else {
        None
    }
}

/// The result of decoding the instruction at `address`, whose bytes are
/// `opcode`, `imm8` and then `imm16` (the word starting at `address + 1`).
pub open spec fn decode_spec(opcode: u8, imm8: u8, imm16: u16, address: u16) -> Result<Instruction, EmulationError> {
    if opcode == 0xCB {
        match decode_prefixed(imm8) {
            Some(i) => Ok(i),
            None => Err(EmulationError {
                ty: EmulationErrorType::UnhandledInstructionDecode((0xCB00 + imm8) as u16),
                pc: Some(address),
            }),
        }
    } else {
        match decode_unprefixed(opcode, imm8, imm16) {
            Some(i) => Ok(i),
            None => Err(EmulationError {
                ty: EmulationErrorType::UnhandledInstructionDecode(opcode as u16),
                pc: Some(address),
            }),
        }
    }
}


/// The number of bytes an operand takes from the instruction stream.
pub open spec fn operand_bytes(o: Operand) -> int
    decreases o,
{
    match o {
        Operand::IMM8(_) | Operand::IMM8_SIGNED(_) | Operand::SP_PLUS_SIGNED_IMM8(_) => 1,
        Operand::IMM16(_) => 2,
        Operand::PTR(p) => operand_bytes(*p),
        _ => 0,
    }
}

/// The number of bytes the operands of an operation take from the stream.
pub open spec fn operation_bytes(op: Operation) -> int {
    match op {
        Operation::LD { dst, src } => operand_bytes(dst) + operand_bytes(src),
        Operation::JP { addr } => operand_bytes(addr),
        Operation::JP_CC { addr, .. } => operand_bytes(addr),
        Operation::JR { offset_oprd } => operand_bytes(offset_oprd),
        Operation::JR_CC { offset_oprd, .. } => operand_bytes(offset_oprd),
        Operation::CALL { proc } => operand_bytes(proc),
        Operation::CALL_CC { proc, .. } => operand_bytes(proc),
        Operation::ADD { x, y } => operand_bytes(x) + operand_bytes(y),
        Operation::SUB { y } => operand_bytes(y),
        Operation::ADC { y } => operand_bytes(y),
        Operation::SBC { y } => operand_bytes(y),
        Operation::OR { y } => operand_bytes(y),
        Operation::XOR { y } => operand_bytes(y),
        Operation::AND { y } => operand_bytes(y),
        Operation::CP { y } => operand_bytes(y),
        _ => 0,
    }
}

/// Whether an operation branches on a condition.
pub open spec fn is_conditional(op: Operation) -> bool {
    op is JR_CC || op is JP_CC || op is CALL_CC || op is RET_CC
}

/// The shape of every decoded instruction: a prefixed one is 2 bytes long;
/// any other is its opcode followed by the bytes of its operands (a restart
/// keeps its target in the opcode), so 1 to 3 bytes; it takes a positive
/// multiple of 4 cycles; and exactly the conditional branches carry a
/// second, larger cycle count for when the branch is taken.
pub proof fn lemma_decoded_shape(opcode: u8, imm8: u8, imm16: u16, address: u16)
    ensures
        decode_spec(opcode, imm8, imm16, address) matches Ok(i) ==> 1 <= i.size <= 3,
        decode_spec(opcode, imm8, imm16, address) matches Ok(i) ==> (opcode == 0xCB ==> i.size == 2),
        decode_spec(opcode, imm8, imm16, address) matches Ok(i) ==> ((opcode != 0xCB && !(i.op is RST)) ==> i.size == 1 + operation_bytes(i.op)),
        decode_spec(opcode, imm8, imm16, address) matches Ok(i) ==> i.cycles > 0 && i.cycles % 4 == 0,
        decode_spec(opcode, imm8, imm16, address) matches Ok(i) ==> (i.branch_cycles is Some <==> is_conditional(i.op)),
        decode_spec(opcode, imm8, imm16, address) matches Ok(i) ==> (i.branch_cycles matches Some(b) ==> b > i.cycles && b % 4 == 0),
{
    reveal_with_fuel(operand_bytes, 2);
}

/// Two different opcodes never decode to the same operation: the decoder
/// loses no information about which instruction it read.
#[verifier::spinoff_prover]
#[verifier::rlimit(100)]
pub proof fn lemma_decode_injective(o1: u8, o2: u8, imm8: u8, imm16: u16)
    requires
        o1 != o2,
        decode_unprefixed(o1, imm8, imm16) is Some,
        decode_unprefixed(o2, imm8, imm16) is Some,
    ensures
        decode_unprefixed(o1, imm8, imm16)->Some_0.op != decode_unprefixed(o2, imm8, imm16)->Some_0.op,
{
}

/// Two different prefixed opcodes never decode to the same operation.
#[verifier::spinoff_prover]
#[verifier::rlimit(100)]
pub proof fn lemma_decode_prefixed_injective(o1: u8, o2: u8)
    requires
        o1 != o2,
        decode_prefixed(o1) is Some,
        decode_prefixed(o2) is Some,
    ensures
        decode_prefixed(o1)->Some_0.op != decode_prefixed(o2)->Some_0.op,
{
}

/// The loads between A and memory, as the opcode table gives them: with a
/// register pair (HL moving up or down after use), with 0xFF00 plus C or plus
/// an immediate byte, or with an immediate address; the opcodes that store A
/// and those that load it differ in one bit (0x08 with a pair, 0x10 otherwise).
pub proof fn lemma_a_memory_loads(imm8: u8, imm16: u16, address: u16)
    ensures
        decode_spec(0x02, imm8, imm16, address) == Ok::<Instruction, EmulationError>(Instruction { op: Operation::LD { dst: Operand::PTR(Box::new(Operand::R16_BC)), src: Operand::R8_A }, size: 1, cycles: 8, branch_cycles: None }),
        decode_spec(0x0A, imm8, imm16, address) == Ok::<Instruction, EmulationError>(Instruction { op: Operation::LD { dst: Operand::R8_A, src: Operand::PTR(Box::new(Operand::R16_BC)) }, size: 1, cycles: 8, branch_cycles: None }),
        decode_spec(0x12, imm8, imm16, address) == Ok::<Instruction, EmulationError>(Instruction { op: Operation::LD { dst: Operand::PTR(Box::new(Operand::R16_DE)), src: Operand::R8_A }, size: 1, cycles: 8, branch_cycles: None }),
        decode_spec(0x1A, imm8, imm16, address) == Ok::<Instruction, EmulationError>(Instruction { op: Operation::LD { dst: Operand::R8_A, src: Operand::PTR(Box::new(Operand::R16_DE)) }, size: 1, cycles: 8, branch_cycles: None }),
        decode_spec(0x22, imm8, imm16, address) == Ok::<Instruction, EmulationError>(Instruction { op: Operation::LD { dst: Operand::PTR(Box::new(Operand::R16_HLI)), src: Operand::R8_A }, size: 1, cycles: 8, branch_cycles: None }),
        decode_spec(0x2A, imm8, imm16, address) == Ok::<Instruction, EmulationError>(Instruction { op: Operation::LD { dst: Operand::R8_A, src: Operand::PTR(Box::new(Operand::R16_HLI)) }, size: 1, cycles: 8, branch_cycles: None }),
        decode_spec(0x32, imm8, imm16, address) == Ok::<Instruction, EmulationError>(Instruction { op: Operation::LD { dst: Operand::PTR(Box::new(Operand::R16_HLD)), src: Operand::R8_A }, size: 1, cycles: 8, branch_cycles: None }),
        decode_spec(0x3A, imm8, imm16, address) == Ok::<Instruction, EmulationError>(Instruction { op: Operation::LD { dst: Operand::R8_A, src: Operand::PTR(Box::new(Operand::R16_HLD)) }, size: 1, cycles: 8, branch_cycles: None }),
        decode_spec(0xE0, imm8, imm16, address) == Ok::<Instruction, EmulationError>(Instruction { op: Operation::LD { dst: Operand::PTR(Box::new(Operand::IMM8(imm8))), src: Operand::R8_A }, size: 2, cycles: 12, branch_cycles: None }),
        decode_spec(0xF0, imm8, imm16, address) == Ok::<Instruction, EmulationError>(Instruction { op: Operation::LD { dst: Operand::R8_A, src: Operand::PTR(Box::new(Operand::IMM8(imm8))) }, size: 2, cycles: 12, branch_cycles: None }),
        decode_spec(0xE2, imm8, imm16, address) == Ok::<Instruction, EmulationError>(Instruction { op: Operation::LD { dst: Operand::PTR(Box::new(Operand::R8_C)), src: Operand::R8_A }, size: 1, cycles: 8, branch_cycles: None }),
        decode_spec(0xF2, imm8, imm16, address) == Ok::<Instruction, EmulationError>(Instruction { op: Operation::LD { dst: Operand::R8_A, src: Operand::PTR(Box::new(Operand::R8_C)) }, size: 1, cycles: 8, branch_cycles: None }),
        decode_spec(0xEA, imm8, imm16, address) == Ok::<Instruction, EmulationError>(Instruction { op: Operation::LD { dst: Operand::PTR(Box::new(Operand::IMM16(imm16))), src: Operand::R8_A }, size: 3, cycles: 16, branch_cycles: None }),
        decode_spec(0xFA, imm8, imm16, address) == Ok::<Instruction, EmulationError>(Instruction { op: Operation::LD { dst: Operand::R8_A, src: Operand::PTR(Box::new(Operand::IMM16(imm16))) }, size: 3, cycles: 16, branch_cycles: None }),
{
}

/// Decoding never fails otherwise than on an opcode it does not handle: it
/// gives an instruction, or the error naming that opcode (`0xCB00` plus the
/// second byte for a prefixed one) at the address it was read from.
pub proof fn lemma_decode_outcome(opcode: u8, imm8: u8, imm16: u16, address: u16)
    ensures
        decode_spec(opcode, imm8, imm16, address) matches Err(e) ==> e.pc == Some(address) && e.ty
            == EmulationErrorType::UnhandledInstructionDecode(
            if opcode == 0xCB {
                (0xCB00 + imm8) as u16
            } else {
                opcode as u16
            },
        ),
{
}

// The opcode tables, by quarter.
// https://meganesu.github.io/generate-gb-opcodes/
// https://gbdev.io/gb-opcodes/optables/ (seems to correct a few mistakes)

fn decode_unprefixed_0(opcode: u8, imm8: u8, imm16: u16) -> (r: Option<Instruction>)
    requires
        0x00 <= opcode < 0x40,
    ensures
        r == decode_unprefixed(opcode, imm8, imm16),
{
    match opcode {
        0x00 => Some(Instruction { op: Operation::NOP, size: 1, cycles: 4, branch_cycles: None }),
        0x01 => Some(Instruction { op: Operation::LD { dst: Operand::R16_BC, src: Operand::IMM16(imm16) }, size: 3, cycles: 12, branch_cycles: None }),
        0x02 => Some(Instruction { op: Operation::LD { dst: Operand::PTR(Box::new(Operand::R16_BC)), src: Operand::R8_A }, size: 1, cycles: 8, branch_cycles: None }),
        0x03 => Some(Instruction { op: Operation::INC { x: Operand::R16_BC }, size: 1, cycles: 8, branch_cycles: None }),
        0x04 => Some(Instruction { op: Operation::INC { x: Operand::R8_B }, size: 1, cycles: 4, branch_cycles: None }),
        0x05 => Some(Instruction { op: Operation::DEC { x: Operand::R8_B }, size: 1, cycles: 4, branch_cycles: None }),
        0x06 => Some(Instruction { op: Operation::LD { dst: Operand::R8_B, src: Operand::IMM8(imm8) }, size: 2, cycles: 8, branch_cycles: None }),
        0x07 => None,
        0x08 => None,
        0x09 => Some(Instruction { op: Operation::ADD { x: Operand::R16_HL, y: Operand::R16_BC }, size: 1, cycles: 8, branch_cycles: None }),
        0x0A => Some(Instruction { op: Operation::LD { dst: Operand::R8_A, src: Operand::PTR(Box::new(Operand::R16_BC)) }, size: 1, cycles: 8, branch_cycles: None }),
        0x0B => Some(Instruction { op: Operation::DEC { x: Operand::R16_BC }, size: 1, cycles: 8, branch_cycles: None }),
        0x0C => Some(Instruction { op: Operation::INC { x: Operand::R8_C }, size: 1, cycles: 4, branch_cycles: None }),
        0x0D => Some(Instruction { op: Operation::DEC { x: Operand::R8_C }, size: 1, cycles: 4, branch_cycles: None }),
        0x0E => Some(Instruction { op: Operation::LD { dst: Operand::R8_C, src: Operand::IMM8(imm8) }, size: 2, cycles: 8, branch_cycles: None }),
        0x0F => Some(Instruction { op: Operation::RRCA, size: 1, cycles: 4, branch_cycles: None }),
        0x10 => None,
        0x11 => Some(Instruction { op: Operation::LD { dst: Operand::R16_DE, src: Operand::IMM16(imm16) }, size: 3, cycles: 12, branch_cycles: None }),
        0x12 => Some(Instruction { op: Operation::LD { dst: Operand::PTR(Box::new(Operand::R16_DE)), src: Operand::R8_A }, size: 1, cycles: 8, branch_cycles: None }),
        0x13 => Some(Instruction { op: Operation::INC { x: Operand::R16_DE }, size: 1, cycles: 8, branch_cycles: None }),
        0x14 => Some(Instruction { op: Operation::INC { x: Operand::R8_D }, size: 1, cycles: 4, branch_cycles: None }),
        0x15 => Some(Instruction { op: Operation::DEC { x: Operand::R8_D }, size: 1, cycles: 4, branch_cycles: None }),
        0x16 => Some(Instruction { op: Operation::LD { dst: Operand::R8_D, src: Operand::IMM8(imm8) }, size: 2, cycles: 8, branch_cycles: None }),
        0x17 => Some(Instruction { op: Operation::RLA, size: 1, cycles: 4, branch_cycles: None }),
        0x18 => Some(Instruction { op: Operation::JR { offset_oprd: Operand::IMM8_SIGNED(imm8 as i8) }, size: 2, cycles: 12, branch_cycles: None }),
        0x19 => Some(Instruction { op: Operation::ADD { x: Operand::R16_HL, y: Operand::R16_DE }, size: 1, cycles: 8, branch_cycles: None }),
        0x1A => Some(Instruction { op: Operation::LD { dst: Operand::R8_A, src: Operand::PTR(Box::new(Operand::R16_DE)) }, size: 1, cycles: 8, branch_cycles: None }),
        0x1B => Some(Instruction { op: Operation::DEC { x: Operand::R16_DE }, size: 1, cycles: 8, branch_cycles: None }),
        0x1C => Some(Instruction { op: Operation::INC { x: Operand::R8_E }, size: 1, cycles: 4, branch_cycles: None }),
        0x1D => Some(Instruction { op: Operation::DEC { x: Operand::R8_E }, size: 1, cycles: 4, branch_cycles: None }),
        0x1E => Some(Instruction { op: Operation::LD { dst: Operand::R8_E, src: Operand::IMM8(imm8) }, size: 2, cycles: 8, branch_cycles: None }),
        0x1F => Some(Instruction { op: Operation::RRA, size: 1, cycles: 4, branch_cycles: None }),
        0x20 => Some(Instruction { op: Operation::JR_CC { cc: Operand::CC_NZ, offset_oprd: Operand::IMM8_SIGNED(imm8 as i8) }, size: 2, cycles: 8, branch_cycles: Some(12) }),
        0x21 => Some(Instruction { op: Operation::LD { dst: Operand::R16_HL, src: Operand::IMM16(imm16) }, size: 3, cycles: 12, branch_cycles: None }),
        0x22 => Some(Instruction { op: Operation::LD { dst: Operand::PTR(Box::new(Operand::R16_HLI)), src: Operand::R8_A }, size: 1, cycles: 8, branch_cycles: None }),
        0x23 => Some(Instruction { op: Operation::INC { x: Operand::R16_HL }, size: 1, cycles: 8, branch_cycles: None }),
        0x24 => Some(Instruction { op: Operation::INC { x: Operand::R8_H }, size: 1, cycles: 4, branch_cycles: None }),
        0x25 => Some(Instruction { op: Operation::DEC { x: Operand::R8_H }, size: 1, cycles: 4, branch_cycles: None }),
        0x26 => Some(Instruction { op: Operation::LD { dst: Operand::R8_H, src: Operand::IMM8(imm8) }, size: 2, cycles: 8, branch_cycles: None }),
        0x27 => None,
        0x28 => Some(Instruction { op: Operation::JR_CC { cc: Operand::CC_Z, offset_oprd: Operand::IMM8_SIGNED(imm8 as i8) }, size: 2, cycles: 8, branch_cycles: Some(12) }),
        0x29 => Some(Instruction { op: Operation::ADD { x: Operand::R16_HL, y: Operand::R16_HL }, size: 1, cycles: 8, branch_cycles: None }),
        0x2A => Some(Instruction { op: Operation::LD { dst: Operand::R8_A, src: Operand::PTR(Box::new(Operand::R16_HLI)) }, size: 1, cycles: 8, branch_cycles: None }),
        0x2B => Some(Instruction { op: Operation::DEC { x: Operand::R16_HL }, size: 1, cycles: 8, branch_cycles: None }),
        0x2C => Some(Instruction { op: Operation::INC { x: Operand::R8_L }, size: 1, cycles: 4, branch_cycles: None }),
        0x2D => Some(Instruction { op: Operation::DEC { x: Operand::R8_L }, size: 1, cycles: 4, branch_cycles: None }),
        0x2E => Some(Instruction { op: Operation::LD { dst: Operand::R8_L, src: Operand::IMM8(imm8) }, size: 2, cycles: 8, branch_cycles: None }),
        0x2F => Some(Instruction { op: Operation::CPL, size: 1, cycles: 4, branch_cycles: None }),
        0x30 => Some(Instruction { op: Operation::JR_CC { cc: Operand::CC_NC, offset_oprd: Operand::IMM8_SIGNED(imm8 as i8) }, size: 2, cycles: 8, branch_cycles: Some(12) }),
        0x31 => Some(Instruction { op: Operation::LD { dst: Operand::R16_SP, src: Operand::IMM16(imm16) }, size: 3, cycles: 12, branch_cycles: None }),
        0x32 => Some(Instruction { op: Operation::LD { dst: Operand::PTR(Box::new(Operand::R16_HLD)), src: Operand::R8_A }, size: 1, cycles: 8, branch_cycles: None }),
        0x33 => Some(Instruction { op: Operation::INC { x: Operand::R16_SP }, size: 1, cycles: 8, branch_cycles: None }),
        0x34 => Some(Instruction { op: Operation::INC { x: Operand::PTR(Box::new(Operand::R16_HL)) }, size: 1, cycles: 12, branch_cycles: None }),
        0x35 => Some(Instruction { op: Operation::DEC { x: Operand::PTR(Box::new(Operand::R16_HL)) }, size: 1, cycles: 12, branch_cycles: None }),
        0x36 => Some(Instruction { op: Operation::LD { dst: Operand::PTR(Box::new(Operand::R16_HL)), src: Operand::IMM8(imm8) }, size: 2, cycles: 12, branch_cycles: None }),
        0x37 => None,
        0x38 => Some(Instruction { op: Operation::JR_CC { cc: Operand::CC_C, offset_oprd: Operand::IMM8_SIGNED(imm8 as i8) }, size: 2, cycles: 8, branch_cycles: Some(12) }),
        0x39 => Some(Instruction { op: Operation::ADD { x: Operand::R16_HL, y: Operand::R16_SP }, size: 1, cycles: 8, branch_cycles: None }),
        0x3A => Some(Instruction { op: Operation::LD { dst: Operand::R8_A, src: Operand::PTR(Box::new(Operand::R16_HLD)) }, size: 1, cycles: 8, branch_cycles: None }),
        0x3B => Some(Instruction { op: Operation::DEC { x: Operand::R16_SP }, size: 1, cycles: 8, branch_cycles: None }),
        0x3C => Some(Instruction { op: Operation::INC { x: Operand::R8_A }, size: 1, cycles: 4, branch_cycles: None }),
        0x3D => Some(Instruction { op: Operation::DEC { x: Operand::R8_A }, size: 1, cycles: 4, branch_cycles: None }),
        0x3E => Some(Instruction { op: Operation::LD { dst: Operand::R8_A, src: Operand::IMM8(imm8) }, size: 2, cycles: 8, branch_cycles: None }),
        0x3F => None,
        _ => None,
    }
}

fn decode_unprefixed_1(opcode: u8, imm8: u8, imm16: u16) -> (r: Option<Instruction>)
    requires
        0x40 <= opcode < 0x80,
    ensures
        r == decode_unprefixed(opcode, imm8, imm16),
{
    match opcode {
        0x40 => Some(Instruction { op: Operation::LD { dst: Operand::R8_B, src: Operand::R8_B }, size: 1, cycles: 4, branch_cycles: None }),
        0x41 => Some(Instruction { op: Operation::LD { dst: Operand::R8_B, src: Operand::R8_C }, size: 1, cycles: 4, branch_cycles: None }),
        0x42 => Some(Instruction { op: Operation::LD { dst: Operand::R8_B, src: Operand::R8_D }, size: 1, cycles: 4, branch_cycles: None }),
        0x43 => Some(Instruction { op: Operation::LD { dst: Operand::R8_B, src: Operand::R8_E }, size: 1, cycles: 4, branch_cycles: None }),
        0x44 => Some(Instruction { op: Operation::LD { dst: Operand::R8_B, src: Operand::R8_H }, size: 1, cycles: 4, branch_cycles: None }),
        0x45 => Some(Instruction { op: Operation::LD { dst: Operand::R8_B, src: Operand::R8_L }, size: 1, cycles: 4, branch_cycles: None }),
        0x46 => Some(Instruction { op: Operation::LD { dst: Operand::R8_B, src: Operand::PTR(Box::new(Operand::R16_HL)) }, size: 1, cycles: 8, branch_cycles: None }),
        0x47 => Some(Instruction { op: Operation::LD { dst: Operand::R8_B, src: Operand::R8_A }, size: 1, cycles: 4, branch_cycles: None }),
        0x48 => Some(Instruction { op: Operation::LD { dst: Operand::R8_C, src: Operand::R8_B }, size: 1, cycles: 4, branch_cycles: None }),
        0x49 => Some(Instruction { op: Operation::LD { dst: Operand::R8_C, src: Operand::R8_C }, size: 1, cycles: 4, branch_cycles: None }),
        0x4A => Some(Instruction { op: Operation::LD { dst: Operand::R8_C, src: Operand::R8_D }, size: 1, cycles: 4, branch_cycles: None }),
        0x4B => Some(Instruction { op: Operation::LD { dst: Operand::R8_C, src: Operand::R8_E }, size: 1, cycles: 4, branch_cycles: None }),
        0x4C => Some(Instruction { op: Operation::LD { dst: Operand::R8_C, src: Operand::R8_H }, size: 1, cycles: 4, branch_cycles: None }),
        0x4D => Some(Instruction { op: Operation::LD { dst: Operand::R8_C, src: Operand::R8_L }, size: 1, cycles: 4, branch_cycles: None }),
        0x4E => Some(Instruction { op: Operation::LD { dst: Operand::R8_C, src: Operand::PTR(Box::new(Operand::R16_HL)) }, size: 1, cycles: 8, branch_cycles: None }),
        0x4F => Some(Instruction { op: Operation::LD { dst: Operand::R8_C, src: Operand::R8_A }, size: 1, cycles: 4, branch_cycles: None }),
        0x50 => Some(Instruction { op: Operation::LD { dst: Operand::R8_D, src: Operand::R8_B }, size: 1, cycles: 4, branch_cycles: None }),
        0x51 => Some(Instruction { op: Operation::LD { dst: Operand::R8_D, src: Operand::R8_C }, size: 1, cycles: 4, branch_cycles: None }),
        0x52 => Some(Instruction { op: Operation::LD { dst: Operand::R8_D, src: Operand::R8_D }, size: 1, cycles: 4, branch_cycles: None }),
        0x53 => Some(Instruction { op: Operation::LD { dst: Operand::R8_D, src: Operand::R8_E }, size: 1, cycles: 4, branch_cycles: None }),
        0x54 => Some(Instruction { op: Operation::LD { dst: Operand::R8_D, src: Operand::R8_H }, size: 1, cycles: 4, branch_cycles: None }),
        0x55 => Some(Instruction { op: Operation::LD { dst: Operand::R8_D, src: Operand::R8_L }, size: 1, cycles: 4, branch_cycles: None }),
        0x56 => Some(Instruction { op: Operation::LD { dst: Operand::R8_D, src: Operand::PTR(Box::new(Operand::R16_HL)) }, size: 1, cycles: 8, branch_cycles: None }),
        0x57 => Some(Instruction { op: Operation::LD { dst: Operand::R8_D, src: Operand::R8_A }, size: 1, cycles: 4, branch_cycles: None }),
        0x58 => Some(Instruction { op: Operation::LD { dst: Operand::R8_E, src: Operand::R8_B }, size: 1, cycles: 4, branch_cycles: None }),
        0x59 => Some(Instruction { op: Operation::LD { dst: Operand::R8_E, src: Operand::R8_C }, size: 1, cycles: 4, branch_cycles: None }),
        0x5A => Some(Instruction { op: Operation::LD { dst: Operand::R8_E, src: Operand::R8_D }, size: 1, cycles: 4, branch_cycles: None }),
        0x5B => Some(Instruction { op: Operation::LD { dst: Operand::R8_E, src: Operand::R8_E }, size: 1, cycles: 4, branch_cycles: None }),
        0x5C => Some(Instruction { op: Operation::LD { dst: Operand::R8_E, src: Operand::R8_H }, size: 1, cycles: 4, branch_cycles: None }),
        0x5D => Some(Instruction { op: Operation::LD { dst: Operand::R8_E, src: Operand::R8_L }, size: 1, cycles: 4, branch_cycles: None }),
        0x5E => Some(Instruction { op: Operation::LD { dst: Operand::R8_E, src: Operand::PTR(Box::new(Operand::R16_HL)) }, size: 1, cycles: 8, branch_cycles: None }),
        0x5F => Some(Instruction { op: Operation::LD { dst: Operand::R8_E, src: Operand::R8_A }, size: 1, cycles: 4, branch_cycles: None }),
        0x60 => Some(Instruction { op: Operation::LD { dst: Operand::R8_H, src: Operand::R8_B }, size: 1, cycles: 4, branch_cycles: None }),
        0x61 => Some(Instruction { op: Operation::LD { dst: Operand::R8_H, src: Operand::R8_C }, size: 1, cycles: 4, branch_cycles: None }),
        0x62 => Some(Instruction { op: Operation::LD { dst: Operand::R8_H, src: Operand::R8_D }, size: 1, cycles: 4, branch_cycles: None }),
        0x63 => Some(Instruction { op: Operation::LD { dst: Operand::R8_H, src: Operand::R8_E }, size: 1, cycles: 4, branch_cycles: None }),
        0x64 => Some(Instruction { op: Operation::LD { dst: Operand::R8_H, src: Operand::R8_H }, size: 1, cycles: 4, branch_cycles: None }),
        0x65 => Some(Instruction { op: Operation::LD { dst: Operand::R8_H, src: Operand::R8_L }, size: 1, cycles: 4, branch_cycles: None }),
        0x66 => Some(Instruction { op: Operation::LD { dst: Operand::R8_H, src: Operand::PTR(Box::new(Operand::R16_HL)) }, size: 1, cycles: 8, branch_cycles: None }),
        0x67 => Some(Instruction { op: Operation::LD { dst: Operand::R8_H, src: Operand::R8_A }, size: 1, cycles: 4, branch_cycles: None }),
        0x68 => Some(Instruction { op: Operation::LD { dst: Operand::R8_L, src: Operand::R8_B }, size: 1, cycles: 4, branch_cycles: None }),
        0x69 => Some(Instruction { op: Operation::LD { dst: Operand::R8_L, src: Operand::R8_C }, size: 1, cycles: 4, branch_cycles: None }),
        0x6A => Some(Instruction { op: Operation::LD { dst: Operand::R8_L, src: Operand::R8_D }, size: 1, cycles: 4, branch_cycles: None }),
        0x6B => Some(Instruction { op: Operation::LD { dst: Operand::R8_L, src: Operand::R8_E }, size: 1, cycles: 4, branch_cycles: None }),
        0x6C => Some(Instruction { op: Operation::LD { dst: Operand::R8_L, src: Operand::R8_H }, size: 1, cycles: 4, branch_cycles: None }),
        0x6D => Some(Instruction { op: Operation::LD { dst: Operand::R8_L, src: Operand::R8_L }, size: 1, cycles: 4, branch_cycles: None }),
        0x6E => Some(Instruction { op: Operation::LD { dst: Operand::R8_L, src: Operand::PTR(Box::new(Operand::R16_HL)) }, size: 1, cycles: 8, branch_cycles: None }),
        0x6F => Some(Instruction { op: Operation::LD { dst: Operand::R8_L, src: Operand::R8_A }, size: 1, cycles: 4, branch_cycles: None }),
        0x70 => Some(Instruction { op: Operation::LD { dst: Operand::PTR(Box::new(Operand::R16_HL)), src: Operand::R8_B }, size: 1, cycles: 8, branch_cycles: None }),
        0x71 => Some(Instruction { op: Operation::LD { dst: Operand::PTR(Box::new(Operand::R16_HL)), src: Operand::R8_C }, size: 1, cycles: 8, branch_cycles: None }),
        0x72 => Some(Instruction { op: Operation::LD { dst: Operand::PTR(Box::new(Operand::R16_HL)), src: Operand::R8_D }, size: 1, cycles: 8, branch_cycles: None }),
        0x73 => Some(Instruction { op: Operation::LD { dst: Operand::PTR(Box::new(Operand::R16_HL)), src: Operand::R8_E }, size: 1, cycles: 8, branch_cycles: None }),
        0x74 => Some(Instruction { op: Operation::LD { dst: Operand::PTR(Box::new(Operand::R16_HL)), src: Operand::R8_H }, size: 1, cycles: 8, branch_cycles: None }),
        0x75 => Some(Instruction { op: Operation::LD { dst: Operand::PTR(Box::new(Operand::R16_HL)), src: Operand::R8_L }, size: 1, cycles: 8, branch_cycles: None }),
        0x76 => Some(Instruction { op: Operation::HALT, size: 1, cycles: 4, branch_cycles: None }),
        0x77 => Some(Instruction { op: Operation::LD { dst: Operand::PTR(Box::new(Operand::R16_HL)), src: Operand::R8_A }, size: 1, cycles: 8, branch_cycles: None }),
        0x78 => Some(Instruction { op: Operation::LD { dst: Operand::R8_A, src: Operand::R8_B }, size: 1, cycles: 4, branch_cycles: None }),
        0x79 => Some(Instruction { op: Operation::LD { dst: Operand::R8_A, src: Operand::R8_C }, size: 1, cycles: 4, branch_cycles: None }),
        0x7A => Some(Instruction { op: Operation::LD { dst: Operand::R8_A, src: Operand::R8_D }, size: 1, cycles: 4, branch_cycles: None }),
        0x7B => Some(Instruction { op: Operation::LD { dst: Operand::R8_A, src: Operand::R8_E }, size: 1, cycles: 4, branch_cycles: None }),
        0x7C => Some(Instruction { op: Operation::LD { dst: Operand::R8_A, src: Operand::R8_H }, size: 1, cycles: 4, branch_cycles: None }),
        0x7D => Some(Instruction { op: Operation::LD { dst: Operand::R8_A, src: Operand::R8_L }, size: 1, cycles: 4, branch_cycles: None }),
        0x7E => Some(Instruction { op: Operation::LD { dst: Operand::R8_A, src: Operand::PTR(Box::new(Operand::R16_HL)) }, size: 1, cycles: 8, branch_cycles: None }),
        0x7F => Some(Instruction { op: Operation::LD { dst: Operand::R8_A, src: Operand::R8_A }, size: 1, cycles: 4, branch_cycles: None }),
        _ => None,
    }
}

fn decode_unprefixed_2(opcode: u8, imm8: u8, imm16: u16) -> (r: Option<Instruction>)
    requires
        0x80 <= opcode < 0xC0,
    ensures
        r == decode_unprefixed(opcode, imm8, imm16),
{
    match opcode {
        0x80 => Some(Instruction { op: Operation::ADD { x: Operand::R8_A, y: Operand::R8_B }, size: 1, cycles: 4, branch_cycles: None }),
        0x81 => Some(Instruction { op: Operation::ADD { x: Operand::R8_A, y: Operand::R8_C }, size: 1, cycles: 4, branch_cycles: None }),
        0x82 => Some(Instruction { op: Operation::ADD { x: Operand::R8_A, y: Operand::R8_D }, size: 1, cycles: 4, branch_cycles: None }),
        0x83 => Some(Instruction { op: Operation::ADD { x: Operand::R8_A, y: Operand::R8_E }, size: 1, cycles: 4, branch_cycles: None }),
        0x84 => Some(Instruction { op: Operation::ADD { x: Operand::R8_A, y: Operand::R8_H }, size: 1, cycles: 4, branch_cycles: None }),
        0x85 => Some(Instruction { op: Operation::ADD { x: Operand::R8_A, y: Operand::R8_L }, size: 1, cycles: 4, branch_cycles: None }),
        0x86 => Some(Instruction { op: Operation::ADD { x: Operand::R8_A, y: Operand::PTR(Box::new(Operand::R16_HL)) }, size: 1, cycles: 8, branch_cycles: None }),
        0x87 => Some(Instruction { op: Operation::ADD { x: Operand::R8_A, y: Operand::R8_A }, size: 1, cycles: 4, branch_cycles: None }),
        0x88 => Some(Instruction { op: Operation::ADC { y: Operand::R8_B }, size: 1, cycles: 4, branch_cycles: None }),
        0x89 => Some(Instruction { op: Operation::ADC { y: Operand::R8_C }, size: 1, cycles: 4, branch_cycles: None }),
        0x8A => Some(Instruction { op: Operation::ADC { y: Operand::R8_D }, size: 1, cycles: 4, branch_cycles: None }),
        0x8B => Some(Instruction { op: Operation::ADC { y: Operand::R8_E }, size: 1, cycles: 4, branch_cycles: None }),
        0x8C => Some(Instruction { op: Operation::ADC { y: Operand::R8_H }, size: 1, cycles: 4, branch_cycles: None }),
        0x8D => Some(Instruction { op: Operation::ADC { y: Operand::R8_L }, size: 1, cycles: 4, branch_cycles: None }),
        0x8E => Some(Instruction { op: Operation::ADC { y: Operand::PTR(Box::new(Operand::R16_HL)) }, size: 1, cycles: 8, branch_cycles: None }),
        0x8F => Some(Instruction { op: Operation::ADC { y: Operand::R8_A }, size: 1, cycles: 4, branch_cycles: None }),
        0x90 => Some(Instruction { op: Operation::SUB { y: Operand::R8_B }, size: 1, cycles: 4, branch_cycles: None }),
        0x91 => Some(Instruction { op: Operation::SUB { y: Operand::R8_C }, size: 1, cycles: 4, branch_cycles: None }),
        0x92 => Some(Instruction { op: Operation::SUB { y: Operand::R8_D }, size: 1, cycles: 4, branch_cycles: None }),
        0x93 => Some(Instruction { op: Operation::SUB { y: Operand::R8_E }, size: 1, cycles: 4, branch_cycles: None }),
        0x94 => Some(Instruction { op: Operation::SUB { y: Operand::R8_H }, size: 1, cycles: 4, branch_cycles: None }),
        0x95 => Some(Instruction { op: Operation::SUB { y: Operand::R8_L }, size: 1, cycles: 4, branch_cycles: None }),
        0x96 => Some(Instruction { op: Operation::SUB { y: Operand::PTR(Box::new(Operand::R16_HL)) }, size: 1, cycles: 8, branch_cycles: None }),
        0x97 => Some(Instruction { op: Operation::SUB { y: Operand::R8_A }, size: 1, cycles: 4, branch_cycles: None }),
        0x98 => None,
        0x99 => None,
        0x9A => None,
        0x9B => None,
        0x9C => None,
        0x9D => None,
        0x9E => None,
        0x9F => None,
        0xA0 => Some(Instruction { op: Operation::AND { y: Operand::R8_B }, size: 1, cycles: 4, branch_cycles: None }),
        0xA1 => Some(Instruction { op: Operation::AND { y: Operand::R8_C }, size: 1, cycles: 4, branch_cycles: None }),
        0xA2 => Some(Instruction { op: Operation::AND { y: Operand::R8_D }, size: 1, cycles: 4, branch_cycles: None }),
        0xA3 => Some(Instruction { op: Operation::AND { y: Operand::R8_E }, size: 1, cycles: 4, branch_cycles: None }),
        0xA4 => Some(Instruction { op: Operation::AND { y: Operand::R8_H }, size: 1, cycles: 4, branch_cycles: None }),
        0xA5 => Some(Instruction { op: Operation::AND { y: Operand::R8_L }, size: 1, cycles: 4, branch_cycles: None }),
        0xA6 => Some(Instruction { op: Operation::AND { y: Operand::PTR(Box::new(Operand::R16_HL)) }, size: 1, cycles: 8, branch_cycles: None }),
        0xA7 => Some(Instruction { op: Operation::AND { y: Operand::R8_A }, size: 1, cycles: 4, branch_cycles: None }),
        0xA8 => Some(Instruction { op: Operation::XOR { y: Operand::R8_B }, size: 1, cycles: 4, branch_cycles: None }),
        0xA9 => Some(Instruction { op: Operation::XOR { y: Operand::R8_C }, size: 1, cycles: 4, branch_cycles: None }),
        0xAA => Some(Instruction { op: Operation::XOR { y: Operand::R8_D }, size: 1, cycles: 4, branch_cycles: None }),
        0xAB => Some(Instruction { op: Operation::XOR { y: Operand::R8_E }, size: 1, cycles: 4, branch_cycles: None }),
        0xAC => Some(Instruction { op: Operation::XOR { y: Operand::R8_H }, size: 1, cycles: 4, branch_cycles: None }),
        0xAD => Some(Instruction { op: Operation::XOR { y: Operand::R8_L }, size: 1, cycles: 4, branch_cycles: None }),
        0xAE => Some(Instruction { op: Operation::XOR { y: Operand::PTR(Box::new(Operand::R16_HL)) }, size: 1, cycles: 8, branch_cycles: None }),
        0xAF => Some(Instruction { op: Operation::XOR { y: Operand::R8_A }, size: 1, cycles: 4, branch_cycles: None }),
        0xB0 => Some(Instruction { op: Operation::OR { y: Operand::R8_B }, size: 1, cycles: 4, branch_cycles: None }),
        0xB1 => Some(Instruction { op: Operation::OR { y: Operand::R8_C }, size: 1, cycles: 4, branch_cycles: None }),
        0xB2 => Some(Instruction { op: Operation::OR { y: Operand::R8_D }, size: 1, cycles: 4, branch_cycles: None }),
        0xB3 => Some(Instruction { op: Operation::OR { y: Operand::R8_E }, size: 1, cycles: 4, branch_cycles: None }),
        0xB4 => Some(Instruction { op: Operation::OR { y: Operand::R8_H }, size: 1, cycles: 4, branch_cycles: None }),
        0xB5 => Some(Instruction { op: Operation::OR { y: Operand::R8_L }, size: 1, cycles: 4, branch_cycles: None }),
        0xB6 => Some(Instruction { op: Operation::OR { y: Operand::PTR(Box::new(Operand::R16_HL)) }, size: 1, cycles: 8, branch_cycles: None }),
        0xB7 => Some(Instruction { op: Operation::OR { y: Operand::R8_A }, size: 1, cycles: 4, branch_cycles: None }),
        0xB8 => Some(Instruction { op: Operation::CP { y: Operand::R8_B }, size: 1, cycles: 4, branch_cycles: None }),
        0xB9 => Some(Instruction { op: Operation::CP { y: Operand::R8_C }, size: 1, cycles: 4, branch_cycles: None }),
        0xBA => Some(Instruction { op: Operation::CP { y: Operand::R8_D }, size: 1, cycles: 4, branch_cycles: None }),
        0xBB => Some(Instruction { op: Operation::CP { y: Operand::R8_E }, size: 1, cycles: 4, branch_cycles: None }),
        0xBC => Some(Instruction { op: Operation::CP { y: Operand::R8_H }, size: 1, cycles: 4, branch_cycles: None }),
        0xBD => Some(Instruction { op: Operation::CP { y: Operand::R8_L }, size: 1, cycles: 4, branch_cycles: None }),
        0xBE => Some(Instruction { op: Operation::CP { y: Operand::PTR(Box::new(Operand::R16_HL)) }, size: 1, cycles: 8, branch_cycles: None }),
        0xBF => Some(Instruction { op: Operation::CP { y: Operand::R8_A }, size: 1, cycles: 4, branch_cycles: None }),
        _ => None,
    }
}

fn decode_unprefixed_3(opcode: u8, imm8: u8, imm16: u16) -> (r: Option<Instruction>)
    requires
        0xC0 <= opcode < 0x100,
    ensures
        r == decode_unprefixed(opcode, imm8, imm16),
{
    match opcode {
        0xC0 => Some(Instruction { op: Operation::RET_CC { cc: Operand::CC_NZ }, size: 1, cycles: 8, branch_cycles: Some(20) }),
        0xC1 => Some(Instruction { op: Operation::POP { reg: Operand::R16_BC }, size: 1, cycles: 12, branch_cycles: None }),
        0xC2 => Some(Instruction { op: Operation::JP_CC { cc: Operand::CC_NZ, addr: Operand::IMM16(imm16) }, size: 3, cycles: 12, branch_cycles: Some(16) }),
        0xC3 => Some(Instruction { op: Operation::JP { addr: Operand::IMM16(imm16) }, size: 3, cycles: 16, branch_cycles: None }),
        0xC4 => Some(Instruction { op: Operation::CALL_CC { cc: Operand::CC_NZ, proc: Operand::IMM16(imm16) }, size: 3, cycles: 12, branch_cycles: Some(24) }),
        0xC5 => Some(Instruction { op: Operation::PUSH { reg: Operand::R16_BC }, size: 1, cycles: 16, branch_cycles: None }),
        0xC6 => Some(Instruction { op: Operation::ADD { x: Operand::R8_A, y: Operand::IMM8(imm8) }, size: 2, cycles: 8, branch_cycles: None }),
        0xC7 => Some(Instruction { op: Operation::RST { addr: Operand::IMM16(0x00) }, size: 1, cycles: 16, branch_cycles: None }),
        0xC8 => Some(Instruction { op: Operation::RET_CC { cc: Operand::CC_Z }, size: 1, cycles: 8, branch_cycles: Some(20) }),
        0xC9 => Some(Instruction { op: Operation::RET, size: 1, cycles: 16, branch_cycles: None }),
        0xCA => Some(Instruction { op: Operation::JP_CC { cc: Operand::CC_Z, addr: Operand::IMM16(imm16) }, size: 3, cycles: 12, branch_cycles: Some(16) }),
        0xCB => None,
        0xCC => Some(Instruction { op: Operation::CALL_CC { cc: Operand::CC_Z, proc: Operand::IMM16(imm16) }, size: 3, cycles: 12, branch_cycles: Some(24) }),
        0xCD => Some(Instruction { op: Operation::CALL { proc: Operand::IMM16(imm16) }, size: 3, cycles: 24, branch_cycles: None }),
        0xCE => Some(Instruction { op: Operation::ADC { y: Operand::IMM8(imm8) }, size: 2, cycles: 8, branch_cycles: None }),
        0xCF => Some(Instruction { op: Operation::RST { addr: Operand::IMM16(0x08) }, size: 1, cycles: 16, branch_cycles: None }),
        0xD0 => Some(Instruction { op: Operation::RET_CC { cc: Operand::CC_NC }, size: 1, cycles: 8, branch_cycles: Some(20) }),
        0xD1 => Some(Instruction { op: Operation::POP { reg: Operand::R16_DE }, size: 1, cycles: 12, branch_cycles: None }),
        0xD2 => None,
        0xD3 => None,
        0xD4 => Some(Instruction { op: Operation::CALL_CC { cc: Operand::CC_NC, proc: Operand::IMM16(imm16) }, size: 3, cycles: 12, branch_cycles: Some(24) }),
        0xD5 => Some(Instruction { op: Operation::PUSH { reg: Operand::R16_DE }, size: 1, cycles: 16, branch_cycles: None }),
        0xD6 => Some(Instruction { op: Operation::SUB { y: Operand::IMM8(imm8) }, size: 2, cycles: 8, branch_cycles: None }),
        0xD7 => Some(Instruction { op: Operation::RST { addr: Operand::IMM16(0x10) }, size: 1, cycles: 16, branch_cycles: None }),
        0xD8 => Some(Instruction { op: Operation::RET_CC { cc: Operand::CC_C }, size: 1, cycles: 8, branch_cycles: Some(20) }),
        0xD9 => Some(Instruction { op: Operation::RETI, size: 1, cycles: 16, branch_cycles: None }),
        0xDA => None,
        0xDB => None,
        0xDC => Some(Instruction { op: Operation::CALL_CC { cc: Operand::CC_C, proc: Operand::IMM16(imm16) }, size: 3, cycles: 12, branch_cycles: Some(24) }),
        0xDD => None,
        0xDE => None,
        0xDF => Some(Instruction { op: Operation::RST { addr: Operand::IMM16(0x18) }, size: 1, cycles: 16, branch_cycles: None }),
        0xE0 => Some(Instruction { op: Operation::LD { dst: Operand::PTR(Box::new(Operand::IMM8(imm8))), src: Operand::R8_A }, size: 2, cycles: 12, branch_cycles: None }),
        0xE1 => Some(Instruction { op: Operation::POP { reg: Operand::R16_HL }, size: 1, cycles: 12, branch_cycles: None }),
        0xE2 => Some(Instruction { op: Operation::LD { dst: Operand::PTR(Box::new(Operand::R8_C)), src: Operand::R8_A }, size: 1, cycles: 8, branch_cycles: None }),
        0xE3 => None,
        0xE4 => None,
        0xE5 => Some(Instruction { op: Operation::PUSH { reg: Operand::R16_HL }, size: 1, cycles: 16, branch_cycles: None }),
        0xE6 => Some(Instruction { op: Operation::AND { y: Operand::IMM8(imm8) }, size: 2, cycles: 8, branch_cycles: None }),
        0xE7 => Some(Instruction { op: Operation::RST { addr: Operand::IMM16(0x20) }, size: 1, cycles: 16, branch_cycles: None }),
        0xE8 => None,
        0xE9 => Some(Instruction { op: Operation::JP { addr: Operand::R16_HL }, size: 1, cycles: 4, branch_cycles: None }),
        0xEA => Some(Instruction { op: Operation::LD { dst: Operand::PTR(Box::new(Operand::IMM16(imm16))), src: Operand::R8_A }, size: 3, cycles: 16, branch_cycles: None }),
        0xEB => None,
        0xEC => None,
        0xED => None,
        0xEE => Some(Instruction { op: Operation::XOR { y: Operand::IMM8(imm8) }, size: 2, cycles: 8, branch_cycles: None }),
        0xEF => Some(Instruction { op: Operation::RST { addr: Operand::IMM16(0x28) }, size: 1, cycles: 16, branch_cycles: None }),
        0xF0 => Some(Instruction { op: Operation::LD { dst: Operand::R8_A, src: Operand::PTR(Box::new(Operand::IMM8(imm8))) }, size: 2, cycles: 12, branch_cycles: None }),
        0xF1 => Some(Instruction { op: Operation::POP { reg: Operand::R16_AF }, size: 1, cycles: 12, branch_cycles: None }),
        0xF2 => Some(Instruction { op: Operation::LD { dst: Operand::R8_A, src: Operand::PTR(Box::new(Operand::R8_C)) }, size: 1, cycles: 8, branch_cycles: None }),
        0xF3 => Some(Instruction { op: Operation::DI, size: 1, cycles: 4, branch_cycles: None }),
        0xF4 => None,
        0xF5 => Some(Instruction { op: Operation::PUSH { reg: Operand::R16_AF }, size: 1, cycles: 16, branch_cycles: None }),
        0xF6 => Some(Instruction { op: Operation::OR { y: Operand::IMM8(imm8) }, size: 2, cycles: 8, branch_cycles: None }),
        0xF7 => Some(Instruction { op: Operation::RST { addr: Operand::IMM16(0x30) }, size: 1, cycles: 16, branch_cycles: None }),
        0xF8 => Some(Instruction { op: Operation::LD { dst: Operand::R16_HL, src: Operand::SP_PLUS_SIGNED_IMM8(imm8 as i8) }, size: 2, cycles: 12, branch_cycles: None }),
        0xF9 => Some(Instruction { op: Operation::LD { dst: Operand::R16_SP, src: Operand::R16_HL }, size: 1, cycles: 8, branch_cycles: None }),
        0xFA => Some(Instruction { op: Operation::LD { dst: Operand::R8_A, src: Operand::PTR(Box::new(Operand::IMM16(imm16))) }, size: 3, cycles: 16, branch_cycles: None }),
        0xFB => Some(Instruction { op: Operation::EI, size: 1, cycles: 4, branch_cycles: None }),
        0xFC => None,
        0xFD => None,
        0xFE => Some(Instruction { op: Operation::CP { y: Operand::IMM8(imm8) }, size: 2, cycles: 8, branch_cycles: None }),
        0xFF => Some(Instruction { op: Operation::RST { addr: Operand::IMM16(0x38) }, size: 1, cycles: 16, branch_cycles: None }),
        _ => None,
    }
}

fn decode_prefixed_0(opcode: u8) -> (r: Option<Instruction>)
    requires
        0x00 <= opcode < 0x40,
    ensures
        r == decode_prefixed(opcode),
{
    match opcode {
        0x00 => None,
        0x01 => None,
        0x02 => None,
        0x03 => None,
        0x04 => None,
        0x05 => None,
        0x06 => None,
        0x07 => None,
        0x08 => None,
        0x09 => None,
        0x0A => None,
        0x0B => None,
        0x0C => None,
        0x0D => None,
        0x0E => None,
        0x0F => None,
        0x10 => None,
        0x11 => Some(Instruction { op: Operation::RL { x: Operand::R8_C }, size: 2, cycles: 8, branch_cycles: None }),
        0x12 => None,
        0x13 => None,
        0x14 => None,
        0x15 => None,
        0x16 => None,
        0x17 => None,
        0x18 => Some(Instruction { op: Operation::RR { x: Operand::R8_B }, size: 2, cycles: 8, branch_cycles: None }),
        0x19 => Some(Instruction { op: Operation::RR { x: Operand::R8_C }, size: 2, cycles: 8, branch_cycles: None }),
        0x1A => Some(Instruction { op: Operation::RR { x: Operand::R8_D }, size: 2, cycles: 8, branch_cycles: None }),
        0x1B => Some(Instruction { op: Operation::RR { x: Operand::R8_E }, size: 2, cycles: 8, branch_cycles: None }),
        0x1C => Some(Instruction { op: Operation::RR { x: Operand::R8_H }, size: 2, cycles: 8, branch_cycles: None }),
        0x1D => Some(Instruction { op: Operation::RR { x: Operand::R8_L }, size: 2, cycles: 8, branch_cycles: None }),
        0x1E => Some(Instruction { op: Operation::RR { x: Operand::PTR(Box::new(Operand::R16_HL)) }, size: 2, cycles: 16, branch_cycles: None }),
        0x1F => Some(Instruction { op: Operation::RR { x: Operand::R8_A }, size: 2, cycles: 8, branch_cycles: None }),
        0x20 => Some(Instruction { op: Operation::SLA { x: Operand::R8_B }, size: 2, cycles: 8, branch_cycles: None }),
        0x21 => Some(Instruction { op: Operation::SLA { x: Operand::R8_C }, size: 2, cycles: 8, branch_cycles: None }),
        0x22 => Some(Instruction { op: Operation::SLA { x: Operand::R8_D }, size: 2, cycles: 8, branch_cycles: None }),
        0x23 => Some(Instruction { op: Operation::SLA { x: Operand::R8_E }, size: 2, cycles: 8, branch_cycles: None }),
        0x24 => Some(Instruction { op: Operation::SLA { x: Operand::R8_H }, size: 2, cycles: 8, branch_cycles: None }),
        0x25 => Some(Instruction { op: Operation::SLA { x: Operand::R8_L }, size: 2, cycles: 8, branch_cycles: None }),
        0x26 => Some(Instruction { op: Operation::SLA { x: Operand::PTR(Box::new(Operand::R16_HL)) }, size: 2, cycles: 16, branch_cycles: None }),
        0x27 => Some(Instruction { op: Operation::SLA { x: Operand::R8_A }, size: 2, cycles: 8, branch_cycles: None }),
        0x28 => None,
        0x29 => None,
        0x2A => None,
        0x2B => None,
        0x2C => None,
        0x2D => None,
        0x2E => None,
        0x2F => None,
        0x30 => Some(Instruction { op: Operation::SWAP { x: Operand::R8_B }, size: 2, cycles: 8, branch_cycles: None }),
        0x31 => Some(Instruction { op: Operation::SWAP { x: Operand::R8_C }, size: 2, cycles: 8, branch_cycles: None }),
        0x32 => Some(Instruction { op: Operation::SWAP { x: Operand::R8_D }, size: 2, cycles: 8, branch_cycles: None }),
        0x33 => Some(Instruction { op: Operation::SWAP { x: Operand::R8_E }, size: 2, cycles: 8, branch_cycles: None }),
        0x34 => Some(Instruction { op: Operation::SWAP { x: Operand::R8_H }, size: 2, cycles: 8, branch_cycles: None }),
        0x35 => Some(Instruction { op: Operation::SWAP { x: Operand::R8_L }, size: 2, cycles: 8, branch_cycles: None }),
        0x36 => Some(Instruction { op: Operation::SWAP { x: Operand::PTR(Box::new(Operand::R16_HL)) }, size: 2, cycles: 16, branch_cycles: None }),
        0x37 => Some(Instruction { op: Operation::SWAP { x: Operand::R8_A }, size: 2, cycles: 8, branch_cycles: None }),
        0x38 => Some(Instruction { op: Operation::SRL { x: Operand::R8_B }, size: 2, cycles: 8, branch_cycles: None }),
        0x39 => Some(Instruction { op: Operation::SRL { x: Operand::R8_C }, size: 2, cycles: 8, branch_cycles: None }),
        0x3A => Some(Instruction { op: Operation::SRL { x: Operand::R8_D }, size: 2, cycles: 8, branch_cycles: None }),
        0x3B => Some(Instruction { op: Operation::SRL { x: Operand::R8_E }, size: 2, cycles: 8, branch_cycles: None }),
        0x3C => Some(Instruction { op: Operation::SRL { x: Operand::R8_H }, size: 2, cycles: 8, branch_cycles: None }),
        0x3D => Some(Instruction { op: Operation::SRL { x: Operand::R8_L }, size: 2, cycles: 8, branch_cycles: None }),
        0x3E => Some(Instruction { op: Operation::SRL { x: Operand::PTR(Box::new(Operand::R16_HL)) }, size: 2, cycles: 16, branch_cycles: None }),
        0x3F => Some(Instruction { op: Operation::SRL { x: Operand::R8_A }, size: 2, cycles: 8, branch_cycles: None }),
        _ => None,
    }
}

fn decode_prefixed_1(opcode: u8) -> (r: Option<Instruction>)
    requires
        0x40 <= opcode < 0x80,
    ensures
        r == decode_prefixed(opcode),
{
    match opcode {
        0x40 => Some(Instruction { op: Operation::BIT { bit: 0, src: Operand::R8_B }, size: 2, cycles: 8, branch_cycles: None }),
        0x41 => Some(Instruction { op: Operation::BIT { bit: 0, src: Operand::R8_C }, size: 2, cycles: 8, branch_cycles: None }),
        0x42 => Some(Instruction { op: Operation::BIT { bit: 0, src: Operand::R8_D }, size: 2, cycles: 8, branch_cycles: None }),
        0x43 => Some(Instruction { op: Operation::BIT { bit: 0, src: Operand::R8_E }, size: 2, cycles: 8, branch_cycles: None }),
        0x44 => Some(Instruction { op: Operation::BIT { bit: 0, src: Operand::R8_H }, size: 2, cycles: 8, branch_cycles: None }),
        0x45 => Some(Instruction { op: Operation::BIT { bit: 0, src: Operand::R8_L }, size: 2, cycles: 8, branch_cycles: None }),
        0x46 => Some(Instruction { op: Operation::BIT { bit: 0, src: Operand::PTR(Box::new(Operand::R16_HL)) }, size: 2, cycles: 16, branch_cycles: None }),
        0x47 => Some(Instruction { op: Operation::BIT { bit: 0, src: Operand::R8_A }, size: 2, cycles: 8, branch_cycles: None }),
        0x48 => Some(Instruction { op: Operation::BIT { bit: 1, src: Operand::R8_B }, size: 2, cycles: 8, branch_cycles: None }),
        0x49 => Some(Instruction { op: Operation::BIT { bit: 1, src: Operand::R8_C }, size: 2, cycles: 8, branch_cycles: None }),
        0x4A => Some(Instruction { op: Operation::BIT { bit: 1, src: Operand::R8_D }, size: 2, cycles: 8, branch_cycles: None }),
        0x4B => Some(Instruction { op: Operation::BIT { bit: 1, src: Operand::R8_E }, size: 2, cycles: 8, branch_cycles: None }),
        0x4C => Some(Instruction { op: Operation::BIT { bit: 1, src: Operand::R8_H }, size: 2, cycles: 8, branch_cycles: None }),
        0x4D => Some(Instruction { op: Operation::BIT { bit: 1, src: Operand::R8_L }, size: 2, cycles: 8, branch_cycles: None }),
        0x4E => Some(Instruction { op: Operation::BIT { bit: 1, src: Operand::PTR(Box::new(Operand::R16_HL)) }, size: 2, cycles: 16, branch_cycles: None }),
        0x4F => Some(Instruction { op: Operation::BIT { bit: 1, src: Operand::R8_A }, size: 2, cycles: 8, branch_cycles: None }),
        0x50 => Some(Instruction { op: Operation::BIT { bit: 2, src: Operand::R8_B }, size: 2, cycles: 8, branch_cycles: None }),
        0x51 => Some(Instruction { op: Operation::BIT { bit: 2, src: Operand::R8_C }, size: 2, cycles: 8, branch_cycles: None }),
        0x52 => Some(Instruction { op: Operation::BIT { bit: 2, src: Operand::R8_D }, size: 2, cycles: 8, branch_cycles: None }),
        0x53 => Some(Instruction { op: Operation::BIT { bit: 2, src: Operand::R8_E }, size: 2, cycles: 8, branch_cycles: None }),
        0x54 => Some(Instruction { op: Operation::BIT { bit: 2, src: Operand::R8_H }, size: 2, cycles: 8, branch_cycles: None }),
        0x55 => Some(Instruction { op: Operation::BIT { bit: 2, src: Operand::R8_L }, size: 2, cycles: 8, branch_cycles: None }),
        0x56 => Some(Instruction { op: Operation::BIT { bit: 2, src: Operand::PTR(Box::new(Operand::R16_HL)) }, size: 2, cycles: 16, branch_cycles: None }),
        0x57 => Some(Instruction { op: Operation::BIT { bit: 2, src: Operand::R8_A }, size: 2, cycles: 8, branch_cycles: None }),
        0x58 => Some(Instruction { op: Operation::BIT { bit: 3, src: Operand::R8_B }, size: 2, cycles: 8, branch_cycles: None }),
        0x59 => Some(Instruction { op: Operation::BIT { bit: 3, src: Operand::R8_C }, size: 2, cycles: 8, branch_cycles: None }),
        0x5A => Some(Instruction { op: Operation::BIT { bit: 3, src: Operand::R8_D }, size: 2, cycles: 8, branch_cycles: None }),
        0x5B => Some(Instruction { op: Operation::BIT { bit: 3, src: Operand::R8_E }, size: 2, cycles: 8, branch_cycles: None }),
        0x5C => Some(Instruction { op: Operation::BIT { bit: 3, src: Operand::R8_H }, size: 2, cycles: 8, branch_cycles: None }),
        0x5D => Some(Instruction { op: Operation::BIT { bit: 3, src: Operand::R8_L }, size: 2, cycles: 8, branch_cycles: None }),
        0x5E => Some(Instruction { op: Operation::BIT { bit: 3, src: Operand::PTR(Box::new(Operand::R16_HL)) }, size: 2, cycles: 16, branch_cycles: None }),
        0x5F => Some(Instruction { op: Operation::BIT { bit: 3, src: Operand::R8_A }, size: 2, cycles: 8, branch_cycles: None }),
        0x60 => Some(Instruction { op: Operation::BIT { bit: 4, src: Operand::R8_B }, size: 2, cycles: 8, branch_cycles: None }),
        0x61 => Some(Instruction { op: Operation::BIT { bit: 4, src: Operand::R8_C }, size: 2, cycles: 8, branch_cycles: None }),
        0x62 => Some(Instruction { op: Operation::BIT { bit: 4, src: Operand::R8_D }, size: 2, cycles: 8, branch_cycles: None }),
        0x63 => Some(Instruction { op: Operation::BIT { bit: 4, src: Operand::R8_E }, size: 2, cycles: 8, branch_cycles: None }),
        0x64 => Some(Instruction { op: Operation::BIT { bit: 4, src: Operand::R8_H }, size: 2, cycles: 8, branch_cycles: None }),
        0x65 => Some(Instruction { op: Operation::BIT { bit: 4, src: Operand::R8_L }, size: 2, cycles: 8, branch_cycles: None }),
        0x66 => Some(Instruction { op: Operation::BIT { bit: 4, src: Operand::PTR(Box::new(Operand::R16_HL)) }, size: 2, cycles: 16, branch_cycles: None }),
        0x67 => Some(Instruction { op: Operation::BIT { bit: 4, src: Operand::R8_A }, size: 2, cycles: 8, branch_cycles: None }),
        0x68 => Some(Instruction { op: Operation::BIT { bit: 5, src: Operand::R8_B }, size: 2, cycles: 8, branch_cycles: None }),
        0x69 => Some(Instruction { op: Operation::BIT { bit: 5, src: Operand::R8_C }, size: 2, cycles: 8, branch_cycles: None }),
        0x6A => Some(Instruction { op: Operation::BIT { bit: 5, src: Operand::R8_D }, size: 2, cycles: 8, branch_cycles: None }),
        0x6B => Some(Instruction { op: Operation::BIT { bit: 5, src: Operand::R8_E }, size: 2, cycles: 8, branch_cycles: None }),
        0x6C => Some(Instruction { op: Operation::BIT { bit: 5, src: Operand::R8_H }, size: 2, cycles: 8, branch_cycles: None }),
        0x6D => Some(Instruction { op: Operation::BIT { bit: 5, src: Operand::R8_L }, size: 2, cycles: 8, branch_cycles: None }),
        0x6E => Some(Instruction { op: Operation::BIT { bit: 5, src: Operand::PTR(Box::new(Operand::R16_HL)) }, size: 2, cycles: 16, branch_cycles: None }),
        0x6F => Some(Instruction { op: Operation::BIT { bit: 5, src: Operand::R8_A }, size: 2, cycles: 8, branch_cycles: None }),
        0x70 => Some(Instruction { op: Operation::BIT { bit: 6, src: Operand::R8_B }, size: 2, cycles: 8, branch_cycles: None }),
        0x71 => Some(Instruction { op: Operation::BIT { bit: 6, src: Operand::R8_C }, size: 2, cycles: 8, branch_cycles: None }),
        0x72 => Some(Instruction { op: Operation::BIT { bit: 6, src: Operand::R8_D }, size: 2, cycles: 8, branch_cycles: None }),
        0x73 => Some(Instruction { op: Operation::BIT { bit: 6, src: Operand::R8_E }, size: 2, cycles: 8, branch_cycles: None }),
        0x74 => Some(Instruction { op: Operation::BIT { bit: 6, src: Operand::R8_H }, size: 2, cycles: 8, branch_cycles: None }),
        0x75 => Some(Instruction { op: Operation::BIT { bit: 6, src: Operand::R8_L }, size: 2, cycles: 8, branch_cycles: None }),
        0x76 => Some(Instruction { op: Operation::BIT { bit: 6, src: Operand::PTR(Box::new(Operand::R16_HL)) }, size: 2, cycles: 16, branch_cycles: None }),
        0x77 => Some(Instruction { op: Operation::BIT { bit: 6, src: Operand::R8_A }, size: 2, cycles: 8, branch_cycles: None }),
        0x78 => Some(Instruction { op: Operation::BIT { bit: 7, src: Operand::R8_B }, size: 2, cycles: 8, branch_cycles: None }),
        0x79 => Some(Instruction { op: Operation::BIT { bit: 7, src: Operand::R8_C }, size: 2, cycles: 8, branch_cycles: None }),
        0x7A => Some(Instruction { op: Operation::BIT { bit: 7, src: Operand::R8_D }, size: 2, cycles: 8, branch_cycles: None }),
        0x7B => Some(Instruction { op: Operation::BIT { bit: 7, src: Operand::R8_E }, size: 2, cycles: 8, branch_cycles: None }),
        0x7C => Some(Instruction { op: Operation::BIT { bit: 7, src: Operand::R8_H }, size: 2, cycles: 8, branch_cycles: None }),
        0x7D => Some(Instruction { op: Operation::BIT { bit: 7, src: Operand::R8_L }, size: 2, cycles: 8, branch_cycles: None }),
        0x7E => Some(Instruction { op: Operation::BIT { bit: 7, src: Operand::PTR(Box::new(Operand::R16_HL)) }, size: 2, cycles: 16, branch_cycles: None }),
        0x7F => Some(Instruction { op: Operation::BIT { bit: 7, src: Operand::R8_A }, size: 2, cycles: 8, branch_cycles: None }),
        _ => None,
    }
}

fn decode_prefixed_2(opcode: u8) -> (r: Option<Instruction>)
    requires
        0x80 <= opcode < 0xC0,
    ensures
        r == decode_prefixed(opcode),
{
    match opcode {
        0x80 => Some(Instruction { op: Operation::RES { bit: 0, x: Operand::R8_B }, size: 2, cycles: 8, branch_cycles: None }),
        0x81 => Some(Instruction { op: Operation::RES { bit: 0, x: Operand::R8_C }, size: 2, cycles: 8, branch_cycles: None }),
        0x82 => Some(Instruction { op: Operation::RES { bit: 0, x: Operand::R8_D }, size: 2, cycles: 8, branch_cycles: None }),
        0x83 => Some(Instruction { op: Operation::RES { bit: 0, x: Operand::R8_E }, size: 2, cycles: 8, branch_cycles: None }),
        0x84 => Some(Instruction { op: Operation::RES { bit: 0, x: Operand::R8_H }, size: 2, cycles: 8, branch_cycles: None }),
        0x85 => Some(Instruction { op: Operation::RES { bit: 0, x: Operand::R8_L }, size: 2, cycles: 8, branch_cycles: None }),
        0x86 => Some(Instruction { op: Operation::RES { bit: 0, x: Operand::PTR(Box::new(Operand::R16_HL)) }, size: 2, cycles: 16, branch_cycles: None }),
        0x87 => Some(Instruction { op: Operation::RES { bit: 0, x: Operand::R8_A }, size: 2, cycles: 8, branch_cycles: None }),
        0x88 => Some(Instruction { op: Operation::RES { bit: 1, x: Operand::R8_B }, size: 2, cycles: 8, branch_cycles: None }),
        0x89 => Some(Instruction { op: Operation::RES { bit: 1, x: Operand::R8_C }, size: 2, cycles: 8, branch_cycles: None }),
        0x8A => Some(Instruction { op: Operation::RES { bit: 1, x: Operand::R8_D }, size: 2, cycles: 8, branch_cycles: None }),
        0x8B => Some(Instruction { op: Operation::RES { bit: 1, x: Operand::R8_E }, size: 2, cycles: 8, branch_cycles: None }),
        0x8C => Some(Instruction { op: Operation::RES { bit: 1, x: Operand::R8_H }, size: 2, cycles: 8, branch_cycles: None }),
        0x8D => Some(Instruction { op: Operation::RES { bit: 1, x: Operand::R8_L }, size: 2, cycles: 8, branch_cycles: None }),
        0x8E => Some(Instruction { op: Operation::RES { bit: 1, x: Operand::PTR(Box::new(Operand::R16_HL)) }, size: 2, cycles: 16, branch_cycles: None }),
        0x8F => Some(Instruction { op: Operation::RES { bit: 1, x: Operand::R8_A }, size: 2, cycles: 8, branch_cycles: None }),
        0x90 => Some(Instruction { op: Operation::RES { bit: 2, x: Operand::R8_B }, size: 2, cycles: 8, branch_cycles: None }),
        0x91 => Some(Instruction { op: Operation::RES { bit: 2, x: Operand::R8_C }, size: 2, cycles: 8, branch_cycles: None }),
        0x92 => Some(Instruction { op: Operation::RES { bit: 2, x: Operand::R8_D }, size: 2, cycles: 8, branch_cycles: None }),
        0x93 => Some(Instruction { op: Operation::RES { bit: 2, x: Operand::R8_E }, size: 2, cycles: 8, branch_cycles: None }),
        0x94 => Some(Instruction { op: Operation::RES { bit: 2, x: Operand::R8_H }, size: 2, cycles: 8, branch_cycles: None }),
        0x95 => Some(Instruction { op: Operation::RES { bit: 2, x: Operand::R8_L }, size: 2, cycles: 8, branch_cycles: None }),
        0x96 => Some(Instruction { op: Operation::RES { bit: 2, x: Operand::PTR(Box::new(Operand::R16_HL)) }, size: 2, cycles: 16, branch_cycles: None }),
        0x97 => Some(Instruction { op: Operation::RES { bit: 2, x: Operand::R8_A }, size: 2, cycles: 8, branch_cycles: None }),
        0x98 => Some(Instruction { op: Operation::RES { bit: 3, x: Operand::R8_B }, size: 2, cycles: 8, branch_cycles: None }),
        0x99 => Some(Instruction { op: Operation::RES { bit: 3, x: Operand::R8_C }, size: 2, cycles: 8, branch_cycles: None }),
        0x9A => Some(Instruction { op: Operation::RES { bit: 3, x: Operand::R8_D }, size: 2, cycles: 8, branch_cycles: None }),
        0x9B => Some(Instruction { op: Operation::RES { bit: 3, x: Operand::R8_E }, size: 2, cycles: 8, branch_cycles: None }),
        0x9C => Some(Instruction { op: Operation::RES { bit: 3, x: Operand::R8_H }, size: 2, cycles: 8, branch_cycles: None }),
        0x9D => Some(Instruction { op: Operation::RES { bit: 3, x: Operand::R8_L }, size: 2, cycles: 8, branch_cycles: None }),
        0x9E => Some(Instruction { op: Operation::RES { bit: 3, x: Operand::PTR(Box::new(Operand::R16_HL)) }, size: 2, cycles: 16, branch_cycles: None }),
        0x9F => Some(Instruction { op: Operation::RES { bit: 3, x: Operand::R8_A }, size: 2, cycles: 8, branch_cycles: None }),
        0xA0 => Some(Instruction { op: Operation::RES { bit: 4, x: Operand::R8_B }, size: 2, cycles: 8, branch_cycles: None }),
        0xA1 => Some(Instruction { op: Operation::RES { bit: 4, x: Operand::R8_C }, size: 2, cycles: 8, branch_cycles: None }),
        0xA2 => Some(Instruction { op: Operation::RES { bit: 4, x: Operand::R8_D }, size: 2, cycles: 8, branch_cycles: None }),
        0xA3 => Some(Instruction { op: Operation::RES { bit: 4, x: Operand::R8_E }, size: 2, cycles: 8, branch_cycles: None }),
        0xA4 => Some(Instruction { op: Operation::RES { bit: 4, x: Operand::R8_H }, size: 2, cycles: 8, branch_cycles: None }),
        0xA5 => Some(Instruction { op: Operation::RES { bit: 4, x: Operand::R8_L }, size: 2, cycles: 8, branch_cycles: None }),
        0xA6 => Some(Instruction { op: Operation::RES { bit: 4, x: Operand::PTR(Box::new(Operand::R16_HL)) }, size: 2, cycles: 16, branch_cycles: None }),
        0xA7 => Some(Instruction { op: Operation::RES { bit: 4, x: Operand::R8_A }, size: 2, cycles: 8, branch_cycles: None }),
        0xA8 => Some(Instruction { op: Operation::RES { bit: 5, x: Operand::R8_B }, size: 2, cycles: 8, branch_cycles: None }),
        0xA9 => Some(Instruction { op: Operation::RES { bit: 5, x: Operand::R8_C }, size: 2, cycles: 8, branch_cycles: None }),
        0xAA => Some(Instruction { op: Operation::RES { bit: 5, x: Operand::R8_D }, size: 2, cycles: 8, branch_cycles: None }),
        0xAB => Some(Instruction { op: Operation::RES { bit: 5, x: Operand::R8_E }, size: 2, cycles: 8, branch_cycles: None }),
        0xAC => Some(Instruction { op: Operation::RES { bit: 5, x: Operand::R8_H }, size: 2, cycles: 8, branch_cycles: None }),
        0xAD => Some(Instruction { op: Operation::RES { bit: 5, x: Operand::R8_L }, size: 2, cycles: 8, branch_cycles: None }),
        0xAE => Some(Instruction { op: Operation::RES { bit: 5, x: Operand::PTR(Box::new(Operand::R16_HL)) }, size: 2, cycles: 16, branch_cycles: None }),
        0xAF => Some(Instruction { op: Operation::RES { bit: 5, x: Operand::R8_A }, size: 2, cycles: 8, branch_cycles: None }),
        0xB0 => Some(Instruction { op: Operation::RES { bit: 6, x: Operand::R8_B }, size: 2, cycles: 8, branch_cycles: None }),
        0xB1 => Some(Instruction { op: Operation::RES { bit: 6, x: Operand::R8_C }, size: 2, cycles: 8, branch_cycles: None }),
        0xB2 => Some(Instruction { op: Operation::RES { bit: 6, x: Operand::R8_D }, size: 2, cycles: 8, branch_cycles: None }),
        0xB3 => Some(Instruction { op: Operation::RES { bit: 6, x: Operand::R8_E }, size: 2, cycles: 8, branch_cycles: None }),
        0xB4 => Some(Instruction { op: Operation::RES { bit: 6, x: Operand::R8_H }, size: 2, cycles: 8, branch_cycles: None }),
        0xB5 => Some(Instruction { op: Operation::RES { bit: 6, x: Operand::R8_L }, size: 2, cycles: 8, branch_cycles: None }),
        0xB6 => Some(Instruction { op: Operation::RES { bit: 6, x: Operand::PTR(Box::new(Operand::R16_HL)) }, size: 2, cycles: 16, branch_cycles: None }),
        0xB7 => Some(Instruction { op: Operation::RES { bit: 6, x: Operand::R8_A }, size: 2, cycles: 8, branch_cycles: None }),
        0xB8 => Some(Instruction { op: Operation::RES { bit: 7, x: Operand::R8_B }, size: 2, cycles: 8, branch_cycles: None }),
        0xB9 => Some(Instruction { op: Operation::RES { bit: 7, x: Operand::R8_C }, size: 2, cycles: 8, branch_cycles: None }),
        0xBA => Some(Instruction { op: Operation::RES { bit: 7, x: Operand::R8_D }, size: 2, cycles: 8, branch_cycles: None }),
        0xBB => Some(Instruction { op: Operation::RES { bit: 7, x: Operand::R8_E }, size: 2, cycles: 8, branch_cycles: None }),
        0xBC => Some(Instruction { op: Operation::RES { bit: 7, x: Operand::R8_H }, size: 2, cycles: 8, branch_cycles: None }),
        0xBD => Some(Instruction { op: Operation::RES { bit: 7, x: Operand::R8_L }, size: 2, cycles: 8, branch_cycles: None }),
        0xBE => Some(Instruction { op: Operation::RES { bit: 7, x: Operand::PTR(Box::new(Operand::R16_HL)) }, size: 2, cycles: 16, branch_cycles: None }),
        0xBF => Some(Instruction { op: Operation::RES { bit: 7, x: Operand::R8_A }, size: 2, cycles: 8, branch_cycles: None }),
        _ => None,
    }
}

fn decode_prefixed_3(opcode: u8) -> (r: Option<Instruction>)
    requires
        0xC0 <= opcode < 0x100,
    ensures
        r == decode_prefixed(opcode),
{
    match opcode {
        0xC0 => None,
        0xC1 => None,
        0xC2 => None,
        0xC3 => None,
        0xC4 => None,
        0xC5 => None,
        0xC6 => None,
        0xC7 => None,
        0xC8 => None,
        0xC9 => None,
        0xCA => None,
        0xCB => None,
        0xCC => None,
        0xCD => None,
        0xCE => None,
        0xCF => None,
        0xD0 => None,
        0xD1 => None,
        0xD2 => None,
        0xD3 => None,
        0xD4 => None,
        0xD5 => None,
        0xD6 => None,
        0xD7 => None,
        0xD8 => None,
        0xD9 => None,
        0xDA => None,
        0xDB => None,
        0xDC => None,
        0xDD => None,
        0xDE => None,
        0xDF => None,
        0xE0 => None,
        0xE1 => None,
        0xE2 => None,
        0xE3 => None,
        0xE4 => None,
        0xE5 => None,
        0xE6 => None,
        0xE7 => None,
        0xE8 => None,
        0xE9 => None,
        0xEA => None,
        0xEB => None,
        0xEC => None,
        0xED => None,
        0xEE => None,
        0xEF => None,
        0xF0 => None,
        0xF1 => None,
        0xF2 => None,
        0xF3 => None,
        0xF4 => None,
        0xF5 => None,
        0xF6 => None,
        0xF7 => None,
        0xF8 => None,
        0xF9 => None,
        0xFA => None,
        0xFB => None,
        0xFC => None,
        0xFD => None,
        0xFE => None,
        0xFF => None,
        _ => None,
    }
}

/// Decodes an instruction from its bytes: `opcode`, the byte after it
/// (`imm8`) and the little-endian word after it (`imm16`); `address` is where
/// the instruction was read, for the error.
pub fn decode_bytes(opcode: u8, imm8: u8, imm16: u16, address: u16) -> (r: Result<Instruction, EmulationError>)
    ensures
        r == decode_spec(opcode, imm8, imm16, address),
{
    if opcode == 0xCB {
        //prefixed bit manipulation instructions
        let decoded = if imm8 < 0x40 {
            decode_prefixed_0(imm8)
        } else if imm8 < 0x80 {
            decode_prefixed_1(imm8)
        } else if imm8 < 0xC0 {
            decode_prefixed_2(imm8)
        } else {
            decode_prefixed_3(imm8)
        };
        match decoded {
            Some(i) => Ok(i),
            None => Err(EmulationError {
                ty: EmulationErrorType::UnhandledInstructionDecode(0xCB00 + imm8 as u16),
                pc: Some(address),
            }),
        }
    } else {
        let decoded = if opcode < 0x40 {
            decode_unprefixed_0(opcode, imm8, imm16)
        } else if opcode < 0x80 {
            decode_unprefixed_1(opcode, imm8, imm16)
        } else if opcode < 0xC0 {
            decode_unprefixed_2(opcode, imm8, imm16)
        } else {
            decode_unprefixed_3(opcode, imm8, imm16)
        };
        match decoded {
            Some(i) => Ok(i),
            None => Err(EmulationError {
                ty: EmulationErrorType::UnhandledInstructionDecode(opcode as u16),
                pc: Some(address),
            }),
        }
    }
}


/// Whether the instruction at `address` can be read: its opcode, the byte
/// after it and the word after it are all read, whatever the instruction's size.
pub open spec fn fetchable(mem: crate::memory::MemState, address: u16) -> bool {
    &&& address < 0xFFFE
    &&& mem.readable(address)
    &&& mem.word_readable((address + 1) as u16)
}

/// The result of decoding the instruction at `address` in memory.
pub open spec fn decode_at(mem: crate::memory::MemState, address: u16) -> Result<Instruction, EmulationError> {
    decode_spec(mem.read(address), mem.read((address + 1) as u16), mem.read_word((address + 1) as u16), address)
}

pub fn decode_next_instruction(console: &Gameboy) -> (r: Result<Instruction, EmulationError>)
    requires
        console@.wf(),
        fetchable(console@.machine.mem, console@.machine.cpu.pc),
    ensures
        r == decode_at(console@.machine.mem, console@.machine.cpu.pc),
{
    let pc = console.cpu().read_program_counter();
    decode_instruction(console, pc)
}

pub fn decode_instruction(console: &Gameboy, address: u16) -> (r: Result<Instruction, EmulationError>)
    requires
        console@.wf(),
        fetchable(console@.machine.mem, address),
    ensures
        r == decode_at(console@.machine.mem, address),
{
    let instr = console.memory().read_byte(address);  // instruction byte
    let imm8 = console.memory().read_byte(address + 1);  // immediate byte, if needed
    let imm16 = console.memory().read_word(address + 1);  // immediate word, if needed
    decode_bytes(instr, imm8, imm16, address)
}

/// Decodes the instruction at `address` where it can be read, and gives
/// `None` where it cannot.
pub fn try_decode_instruction(console: &Gameboy, address: u16) -> (r: Option<Result<Instruction, EmulationError>>)
    requires
        console@.wf(),
    ensures
        r is None <==> !fetchable(console@.machine.mem, address),
        r matches Some(x) ==> x == decode_at(console@.machine.mem, address),
{
    if address < 0xFFFE && console.memory().is_readable(address) && console.memory().is_word_readable(
        address + 1,
    ) {
        Some(decode_instruction(console, address))
    } else {
        None
    }
}

/// The instructions found from `address` on, each followed by the next: at
/// most `count` of them, stopping before one that cannot be read or
/// decoded, and after one that ends the address space.
pub open spec fn listing(mem: crate::memory::MemState, address: u16, count: nat) -> Seq<(u16, Instruction)>
    decreases count,
{
    if count == 0 || !fetchable(mem, address) {
        Seq::empty()
    } else {
        match decode_at(mem, address) {
            Err(_) => Seq::empty(),
            Ok(i) => {
                let next = address + i.size;
                seq![(address, i)] + if next > 0xFFFF {
                    Seq::empty()
                } else {
                    listing(mem, next as u16, (count - 1) as nat)
                }
            },
        }
    }
}

/// Lists the instructions found from `address` on, with their addresses (see `listing`).
pub fn disassemble(console: &Gameboy, address: u16, count: usize) -> (v: Vec<(u16, Instruction)>)
    requires
        console@.wf(),
    ensures
        v@ == listing(console@.machine.mem, address, count as nat),
{
    let ghost mem = console@.machine.mem;
    let mut res: Vec<(u16, Instruction)> = Vec::new();
    let mut pos = address;
    let mut left = count;
    while left > 0
        invariant
            console@.wf(),
            mem == console@.machine.mem,
            res@ + listing(mem, pos, left as nat) == listing(mem, address, count as nat),
        decreases left,
    {
        let ghost before = res@;
        match try_decode_instruction(console, pos) {
            None => {
                assert(res@ =~= res@ + listing(mem, pos, left as nat));
                return res;
            },
            Some(Err(_)) => {
                assert(res@ =~= res@ + listing(mem, pos, left as nat));
                return res;
            },
            Some(Ok(instr)) => {
                let next: u32 = pos as u32 + instr.size as u32;
                res.push((pos, instr));
                if next > 0xFFFF {
                    assert(res@ =~= before + listing(mem, pos, left as nat));
                    return res;
                }
                assert(res@ + listing(mem, next as u16, (left - 1) as nat) =~= before + listing(
                    mem,
                    pos,
                    left as nat,
                ));
                pos = next as u16;
                left = left - 1;
            },
        }
    }
    assert(res@ =~= res@ + listing(mem, pos, 0));
    res
}

/// Every instruction the decoder produces is one the processor can run: its
/// operands have the shapes the processor accepts, its bit numbers are below 8,
/// each conditional branch has a cycle count for when it is taken, and no
/// instruction takes more than 24 cycles.
pub proof fn lemma_decoded_instructions_are_executable(opcode: u8, imm8: u8, imm16: u16, address: u16)
    ensures
        decode_spec(opcode, imm8, imm16, address) matches Ok(i) ==> crate::semantics::executable(i)
            && i.cycles <= 24 && (i.branch_cycles matches Some(b) ==> b <= 24),
{
}

} // verus!

verus! {

// ---- text of instructions ----

/// The assembly text of an operand.
pub open spec fn operand_text(o: Operand) -> Seq<char>
    decreases o,
{
    match o {
        Operand::R8_A => "a"@,
        Operand::R8_B => "b"@,
        Operand::R8_C => "c"@,
        Operand::R8_D => "d"@,
        Operand::R8_E => "e"@,
        Operand::R8_H => "h"@,
        Operand::R8_L => "l"@,
        Operand::R16_BC => "bc"@,
        Operand::R16_DE => "de"@,
        Operand::R16_HL => "hl"@,
        Operand::R16_AF => "af"@,
        Operand::R16_SP => "sp"@,
        Operand::R16_HLD => "hl-"@,
        Operand::R16_HLI => "hl+"@,
        Operand::CC_NZ => "nz"@,
        Operand::CC_Z => "z"@,
        Operand::CC_NC => "nc"@,
        Operand::CC_C => "c"@,
        Operand::IMM8(v) => crate::text::hex_u8_text(v),
        Operand::IMM8_SIGNED(v) => crate::text::i8_text(v),
        Operand::IMM16(v) => crate::text::hex_u16_text(v),
        Operand::SP_PLUS_SIGNED_IMM8(v) => "sp + "@ + crate::text::i8_text(v),
        Operand::PTR(p) => "("@ + operand_text(*p) + ")"@,
    }
}

/// A mnemonic followed by one operand.
pub open spec fn unary_text(mnemonic: Seq<char>, x: Operand) -> Seq<char> {
    mnemonic + operand_text(x)
}

/// A mnemonic followed by two operands separated by a comma.
pub open spec fn binary_text(mnemonic: Seq<char>, x: Operand, y: Operand) -> Seq<char> {
    mnemonic + operand_text(x) + ", "@ + operand_text(y)
}

/// A bit instruction's mnemonic, bit number and operand.
pub open spec fn bit_text(mnemonic: Seq<char>, bit: u8, x: Operand) -> Seq<char> {
    mnemonic + crate::text::decimal_text(bit as nat) + ", "@ + operand_text(x)
}

/// The assembly text of an instruction.
pub open spec fn instruction_text(instr: Instruction) -> Seq<char> {
    match instr.op {
        Operation::NOP => "nop"@,
        Operation::LD { dst, src } => binary_text("ld "@, dst, src),
        Operation::JP { addr } => unary_text("jp "@, addr),
        Operation::JP_CC { cc, addr } => binary_text("jp "@, cc, addr),
        Operation::JR { offset_oprd } => unary_text("jr "@, offset_oprd),
        Operation::JR_CC { cc, offset_oprd } => binary_text("jr "@, cc, offset_oprd),
        Operation::CALL { proc } => unary_text("call "@, proc),
        Operation::CALL_CC { cc, proc } => binary_text("call "@, cc, proc),
        Operation::RST { addr } => unary_text("rst "@, addr),
        Operation::RET => "ret"@,
        Operation::RET_CC { cc } => unary_text("ret "@, cc),
        Operation::RETI => "reti"@,
        Operation::PUSH { reg } => unary_text("push "@, reg),
        Operation::POP { reg } => unary_text("pop "@, reg),
        Operation::DEC { x } => unary_text("dec "@, x),
        Operation::INC { x } => unary_text("inc "@, x),
        Operation::ADD { x, y } => binary_text("add "@, x, y),
        Operation::SUB { y } => unary_text("sub a, "@, y),
        Operation::ADC { y } => unary_text("adc a, "@, y),
        Operation::SBC { y } => unary_text("sbc a, "@, y),
        Operation::OR { y } => unary_text("or a, "@, y),
        Operation::XOR { y } => unary_text("xor a, "@, y),
        Operation::AND { y } => unary_text("and a, "@, y),
        Operation::BIT { bit, src } => bit_text("bit "@, bit, src),
        Operation::RES { bit, x } => bit_text("res "@, bit, x),
        Operation::SET { bit, x } => bit_text("set "@, bit, x),
        Operation::SWAP { x } => unary_text("swap "@, x),
        Operation::RL { x } => unary_text("rl "@, x),
        Operation::RR { x } => unary_text("rr "@, x),
        Operation::RLC { x } => unary_text("rlc "@, x),
        Operation::RRC { x } => unary_text("rrc "@, x),
        Operation::RLA => "rla"@,
        Operation::RRA => "rra"@,
        Operation::RLCA => "rlca"@,
        Operation::RRCA => "rrca"@,
        Operation::DAA => "daa"@,
        Operation::SRL { x } => unary_text("srl "@, x),
        Operation::SLA { x } => unary_text("sla "@, x),
        Operation::CP { y } => unary_text("cp "@, y),
        Operation::DI => "di"@,
        Operation::EI => "ei"@,
        Operation::CPL => "cpl"@,
        Operation::HALT => "halt"@,
    }
}

/// Appends the text of an operand.
fn push_operand(s: &mut String, o: &Operand)
    ensures
        final(s)@ == old(s)@ + operand_text(*o),
    decreases o,
{
    match o {
        Operand::R8_A => s.append("a"),
        Operand::R8_B => s.append("b"),
        Operand::R8_C => s.append("c"),
        Operand::R8_D => s.append("d"),
        Operand::R8_E => s.append("e"),
        Operand::R8_H => s.append("h"),
        Operand::R8_L => s.append("l"),
        Operand::R16_BC => s.append("bc"),
        Operand::R16_DE => s.append("de"),
        Operand::R16_HL => s.append("hl"),
        Operand::R16_AF => s.append("af"),
        Operand::R16_SP => s.append("sp"),
        Operand::R16_HLD => s.append("hl-"),
        Operand::R16_HLI => s.append("hl+"),
        Operand::CC_NZ => s.append("nz"),
        Operand::CC_Z => s.append("z"),
        Operand::CC_NC => s.append("nc"),
        Operand::CC_C => s.append("c"),
        Operand::IMM8(v) => crate::text::push_hex_u8(s, *v),
        Operand::IMM8_SIGNED(v) => crate::text::push_i8(s, *v),
        Operand::IMM16(v) => crate::text::push_hex_u16(s, *v),
        Operand::SP_PLUS_SIGNED_IMM8(v) => {
            s.append("sp + ");
            crate::text::push_i8(s, *v);
            assert(final(s)@ =~= old(s)@ + operand_text(*o));
        },
        Operand::PTR(p) => {
            s.append("(");
            push_operand(s, &**p);
            s.append(")");
            assert(final(s)@ =~= old(s)@ + operand_text(*o));
        },
    }
}

/// The assembly text of an operand.
pub fn operand_to_string(operand: &Operand) -> (s: String)
    ensures
        s@ == operand_text(*operand),
{
    let mut s = String::new();
    push_operand(&mut s, operand);
    assert(s@ =~= operand_text(*operand));
    s
}

/// Appends a mnemonic followed by one operand.
fn push_unary(s: &mut String, mnemonic: &str, x: &Operand)
    ensures
        final(s)@ == old(s)@ + unary_text(mnemonic@, *x),
{
    s.append(mnemonic);
    push_operand(s, x);
    assert(final(s)@ =~= old(s)@ + unary_text(mnemonic@, *x));
}

/// Appends a mnemonic followed by two operands separated by a comma.
fn push_binary(s: &mut String, mnemonic: &str, x: &Operand, y: &Operand)
    ensures
        final(s)@ == old(s)@ + binary_text(mnemonic@, *x, *y),
{
    s.append(mnemonic);
    push_operand(s, x);
    s.append(", ");
    push_operand(s, y);
    assert(final(s)@ =~= old(s)@ + binary_text(mnemonic@, *x, *y));
}

/// Appends a bit instruction's mnemonic, bit number and operand.
fn push_bit(s: &mut String, mnemonic: &str, bit: u8, x: &Operand)
    ensures
        final(s)@ == old(s)@ + bit_text(mnemonic@, bit, *x),
{
    s.append(mnemonic);
    crate::text::push_decimal_u8(s, bit);
    s.append(", ");
    push_operand(s, x);
    assert(final(s)@ =~= old(s)@ + bit_text(mnemonic@, bit, *x));
}

/// The assembly text of an instruction.
pub fn instruction_to_string(instr: &Instruction) -> (s: String)
    ensures
        s@ == instruction_text(*instr),
{
    let mut s = String::new();
    match &instr.op {
        Operation::NOP => s.append("nop"),
        Operation::LD { dst, src } => push_binary(&mut s, "ld ", dst, src),
        Operation::JP { addr } => push_unary(&mut s, "jp ", addr),
        Operation::JP_CC { cc, addr } => push_binary(&mut s, "jp ", cc, addr),
        Operation::JR { offset_oprd } => push_unary(&mut s, "jr ", offset_oprd),
        Operation::JR_CC { cc, offset_oprd } => push_binary(&mut s, "jr ", cc, offset_oprd),
        Operation::CALL { proc } => push_unary(&mut s, "call ", proc),
        Operation::CALL_CC { cc, proc } => push_binary(&mut s, "call ", cc, proc),
        Operation::RST { addr } => push_unary(&mut s, "rst ", addr),
        Operation::RET => s.append("ret"),
        Operation::RET_CC { cc } => push_unary(&mut s, "ret ", cc),
        Operation::RETI => s.append("reti"),
        Operation::PUSH { reg } => push_unary(&mut s, "push ", reg),
        Operation::POP { reg } => push_unary(&mut s, "pop ", reg),
        Operation::DEC { x } => push_unary(&mut s, "dec ", x),
        Operation::INC { x } => push_unary(&mut s, "inc ", x),
        Operation::ADD { x, y } => push_binary(&mut s, "add ", x, y),
        Operation::SUB { y } => push_unary(&mut s, "sub a, ", y),
        Operation::ADC { y } => push_unary(&mut s, "adc a, ", y),
        Operation::SBC { y } => push_unary(&mut s, "sbc a, ", y),
        Operation::OR { y } => push_unary(&mut s, "or a, ", y),
        Operation::XOR { y } => push_unary(&mut s, "xor a, ", y),
        Operation::AND { y } => push_unary(&mut s, "and a, ", y),
        Operation::BIT { bit, src } => push_bit(&mut s, "bit ", *bit, src),
        Operation::RES { bit, x } => push_bit(&mut s, "res ", *bit, x),
        Operation::SET { bit, x } => push_bit(&mut s, "set ", *bit, x),
        Operation::SWAP { x } => push_unary(&mut s, "swap ", x),
        Operation::RL { x } => push_unary(&mut s, "rl ", x),
        Operation::RR { x } => push_unary(&mut s, "rr ", x),
        Operation::RLC { x } => push_unary(&mut s, "rlc ", x),
        Operation::RRC { x } => push_unary(&mut s, "rrc ", x),
        Operation::RLA => s.append("rla"),
        Operation::RRA => s.append("rra"),
        Operation::RLCA => s.append("rlca"),
        Operation::RRCA => s.append("rrca"),
        Operation::DAA => s.append("daa"),
        Operation::SRL { x } => push_unary(&mut s, "srl ", x),
        Operation::SLA { x } => push_unary(&mut s, "sla ", x),
        Operation::CP { y } => push_unary(&mut s, "cp ", y),
        Operation::DI => s.append("di"),
        Operation::EI => s.append("ei"),
        Operation::CPL => s.append("cpl"),
        Operation::HALT => s.append("halt"),
    }
    assert(s@ =~= instruction_text(*instr));
    s
}

} // verus!
