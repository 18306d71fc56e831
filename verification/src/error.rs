use vstd::prelude::*;

use crate::decoding::{Instruction, instruction_text, instruction_to_string};
use crate::text::{hex_u16_text, hex_u8_text, push_hex_u16, push_hex_u8};

verus! {

/// An error raised while decoding or executing code on the emulated console.
#[derive(Debug)]
pub struct EmulationError {
    pub ty: EmulationErrorType,
    /// The program counter of the instruction that caused the error, when known.
    pub pc: Option<u16>,
}

/// The kinds of emulation errors.
#[derive(Debug)]
pub enum EmulationErrorType {
    /// The opcode (or `0xCB00 + sub-opcode` for prefixed ones) is not decoded.
    UnhandledInstructionDecode(u16),
    /// The instruction is decoded but not executed.
    UnhandledInstructionExec(Instruction),
    /// A write to an address that nothing is mapped to.
    UnauthorizedWrite(u16),
}

/// The text of an error: what happened, a space, and where when the program
/// counter is known; an opcode of one byte shows two digits, a prefixed one four.
pub open spec fn error_text(e: EmulationError) -> Seq<char> {
    let what = match e.ty {
        EmulationErrorType::UnhandledInstructionDecode(opcode) => "Unhandled instruction during decoding : "@
            + if opcode > 0xFF {
            hex_u16_text(opcode)
        } else {
            hex_u8_text(opcode as u8)
        },
        EmulationErrorType::UnhandledInstructionExec(instr) => "Unhandled instruction during execution : "@
            + instruction_text(instr),
        EmulationErrorType::UnauthorizedWrite(address) => "Unauthorized write (Address : "@ + hex_u16_text(
            address,
        ) + ")"@,
    };
    let place = match e.pc {
        Some(pc) => "at PC "@ + hex_u16_text(pc),
        None => Seq::empty(),
    };
    what + " "@ + place
}

impl EmulationError {
    /// The text of the error, as it is shown to the user.
    pub fn to_string(&self) -> (s: String)
        ensures
            s@ == error_text(*self),
    {
        let mut s = String::new();
        match &self.ty {
            EmulationErrorType::UnhandledInstructionDecode(opcode) => {
                s.append("Unhandled instruction during decoding : ");
                if *opcode > 0xFF {
                    push_hex_u16(&mut s, *opcode);
                } else {
                    push_hex_u8(&mut s, *opcode as u8);
                }
            },
            EmulationErrorType::UnhandledInstructionExec(instr) => {
                s.append("Unhandled instruction during execution : ");
                let text = instruction_to_string(instr);
                s.append(text.as_str());
            },
            EmulationErrorType::UnauthorizedWrite(address) => {
                s.append("Unauthorized write (Address : ");
                push_hex_u16(&mut s, *address);
                s.append(")");
            },
        }
        s.append(" ");
        match self.pc {
            Some(pc) => {
                s.append("at PC ");
                push_hex_u16(&mut s, pc);
            },
            None => {},
        }
        assert(s@ =~= error_text(*self));
        s
    }
}

} // verus!
