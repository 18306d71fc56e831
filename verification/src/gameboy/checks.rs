use vstd::prelude::*;

use crate::decoding::{Instruction, Operand, Operation, decode_next_instruction};
use crate::error::EmulationError;
use crate::gameboy::{Gameboy, interrupts_defined, step_defined, step_spec};
use crate::memory::Memory;
use crate::semantics::{exec_defined, executable, ld_defined, ld_shape};

verus! {

// Checks of the conditions under which a step is defined, so that a caller
// can stop where the step is not.

impl Gameboy {
    /// Whether reading the operand byte at HL (when the operand is that byte) is defined.
    fn src8_is_defined(&self, y: &Operand) -> (b: bool)
        requires
            self@.wf(),
        ensures
            b == crate::semantics::src8_defined(self@.machine, *y),
    {
        match y {
            Operand::PTR(p) => match **p {
                Operand::R16_HL => {
                    let hl = self.cpu.read_hl_register();
                    self.memory.is_readable(hl)
                },
                _ => true,
            },
            _ => true,
        }
    }

    /// Whether reading and writing back the byte an operation works on is defined.
    fn target_is_defined(&self, x: &Operand) -> (b: bool)
        requires
            self@.wf(),
        ensures
            b == crate::semantics::target_defined(self@.machine, *x),
    {
        match x {
            Operand::PTR(p) => match **p {
                Operand::R16_HL => {
                    let hl = self.cpu.read_hl_register();
                    self.memory.is_readable(hl) && Memory::is_writable(hl)
                },
                _ => true,
            },
            _ => true,
        }
    }

    fn push_is_defined(&self) -> (b: bool)
        ensures
            b == crate::semantics::push_defined(self@.machine),
    {
        let sp = self.sp_offset(-2);
        Memory::is_word_writable(sp)
    }

    fn pop_is_defined(&self) -> (b: bool)
        requires
            self@.wf(),
        ensures
            b == crate::semantics::pop_defined(self@.machine),
    {
        self.memory.is_word_readable(self.cpu.read_stack_pointer())
    }

    fn ld_is_defined(&self, dst: &Operand, src: &Operand) -> (b: bool)
        requires
            self@.wf(),
            ld_shape(*dst, *src),
        ensures
            b == ld_defined(self@.machine, *dst, *src),
    {
        match dst {
            Operand::R8_A | Operand::R8_B | Operand::R8_C | Operand::R8_D | Operand::R8_E
            | Operand::R8_H | Operand::R8_L => match src {
                Operand::PTR(p) => {
                    let address = self.pointer_address(&**p);
                    self.memory.is_readable(address)
                },
                _ => true,
            },
            Operand::PTR(p) => {
                let address = self.pointer_address(&**p);
                match src {
                    Operand::R16_SP => Memory::is_word_writable(address),
                    _ => Memory::is_writable(address),
                }
            },
            _ => true,
        }
    }

    /// Whether running the instruction on the current state is defined.
    pub fn exec_is_defined(&self, instr: &Instruction) -> (b: bool)
        requires
            self@.wf(),
            executable(*instr),
        ensures
            b == exec_defined(self@.machine, *instr),
    {
        match &instr.op {
            Operation::LD { dst, src } => self.ld_is_defined(dst, src),
            Operation::INC { x } => self.target_is_defined(x),
            Operation::DEC { x } => self.target_is_defined(x),
            Operation::ADD { x, y } => match x {
                Operand::R8_A => self.src8_is_defined(y),
                _ => true,
            },
            Operation::SUB { y } => self.src8_is_defined(y),
            Operation::ADC { y } => self.src8_is_defined(y),
            Operation::SBC { y } => self.src8_is_defined(y),
            Operation::OR { y } => self.src8_is_defined(y),
            Operation::XOR { y } => self.src8_is_defined(y),
            Operation::AND { y } => self.src8_is_defined(y),
            Operation::CP { y } => self.src8_is_defined(y),
            Operation::BIT { src, .. } => self.src8_is_defined(src),
            Operation::RES { x, .. } => self.target_is_defined(x),
            Operation::SET { x, .. } => self.target_is_defined(x),
            Operation::SWAP { x } => self.target_is_defined(x),
            Operation::RL { x } => self.target_is_defined(x),
            Operation::RR { x } => self.target_is_defined(x),
            Operation::RLC { x } => self.target_is_defined(x),
            Operation::RRC { x } => self.target_is_defined(x),
            Operation::SRL { x } => self.target_is_defined(x),
            Operation::SLA { x } => self.target_is_defined(x),
            Operation::CALL { .. } => self.push_is_defined(),
            Operation::CALL_CC { cc, .. } => !self.cpu.get_cc(cc) || self.push_is_defined(),
            Operation::RST { .. } => self.push_is_defined(),
            Operation::PUSH { .. } => self.push_is_defined(),
            Operation::RET => self.pop_is_defined(),
            Operation::RETI => self.pop_is_defined(),
            Operation::POP { .. } => self.pop_is_defined(),
            Operation::RET_CC { cc } => !self.cpu.get_cc(cc) || self.pop_is_defined(),
            _ => true,
        }
    }
}


impl Gameboy {
    /// Whether serving the pending interrupts is defined.
    fn interrupts_are_defined(&self) -> (b: bool)
        requires
            self@.wf(),
        ensures
            b == interrupts_defined(self@.machine),
    {
        if !self.cpu.interrupts_enabled() {
            return true;
        }
        if self.memory.is_interrupt_enabled(0) && self.memory.is_interrupt_requested(0) {
            self.push_is_defined()
        } else if self.memory.is_interrupt_enabled(1) && self.memory.is_interrupt_requested(1) {
            false
        } else if self.memory.is_interrupt_enabled(2) && self.memory.is_interrupt_requested(2) {
            self.push_is_defined()
        } else {
            !(self.memory.is_interrupt_enabled(3) && self.memory.is_interrupt_requested(3)) && !(
            self.memory.is_interrupt_enabled(4) && self.memory.is_interrupt_requested(4))
        }
    }

    /// Runs the console for one step where that step is defined, as `step`
    /// does; returns `None`, leaving the console in some well-formed state,
    /// where it is not (an instruction or interrupt that is not handled, an
    /// access to unmapped memory, a cycle counter at its limit).
    pub fn try_step(&mut self) -> (r: Option<Result<u64, EmulationError>>)
        requires
            old(self)@.wf(),
        ensures
            final(self)@.wf(),
            r is None <==> !step_defined(old(self)@),
            r matches Some(x) ==> (final(self)@, x) == step_spec(old(self)@),
    {
        let ghost s0 = self@;
        if !(self.div_cycles <= u64::MAX - 24 && self.ly_cycles <= u64::MAX - 24 && self.tima_cycles
            <= u64::MAX - 24) {
            return None;
        }
        let cycles_elapsed: u64;
        if self.halted {
            if self.memory.interrupt_pending_and_enabled() {
                self.halted = false;
                if !self.interrupts_are_defined() {
                    return None;
                }
                match self.handle_interrupts() {
                    Ok(()) => {},
                    Err(e) => {
                        return Some(Err(e));
                    },
                }
            }
            cycles_elapsed = 4;
        } else {
            let pc = self.cpu.read_program_counter();
            if !(pc < 0xFFFE && self.memory.is_readable(pc) && self.memory.is_word_readable(pc + 1)) {
                return None;
            }
            match decode_next_instruction(&self) {
                Err(e) => {
                    return Some(Err(e));
                },
                Ok(instr) => {
                    proof {
                        crate::decoding::lemma_decoded_instructions_are_executable(
                            s0.machine.mem.read(s0.machine.cpu.pc),
                            s0.machine.mem.read((s0.machine.cpu.pc + 1) as u16),
                            s0.machine.mem.read_word((s0.machine.cpu.pc + 1) as u16),
                            s0.machine.cpu.pc,
                        );
                    }
                    if !self.exec_is_defined(&instr) {
                        return None;
                    }
                },
            }
            match self.run_next_instruction() {
                Ok(c) => {
                    cycles_elapsed = c;
                },
                Err(e) => {
                    return Some(Err(e));
                },
            }
        }
        let ghost s1 = self@;
        if !self.interrupts_are_defined() {
            return None;
        }
        match self.handle_interrupts() {
            Ok(()) => {},
            Err(e) => {
                return Some(Err(e));
            },
        }
        self.update_misc();
        self.div_cycles = self.div_cycles + cycles_elapsed;
        self.ly_cycles = self.ly_cycles + cycles_elapsed;
        self.tima_cycles = self.tima_cycles + cycles_elapsed;
        Some(Ok(cycles_elapsed))
    }
}

} // verus!
