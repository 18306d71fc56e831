use vstd::prelude::*;

use crate::cpu::{CPU, CpuState, bit_of, pow2_u8, lemma_byte_ops, lemma_bit_is_0_or_1, lemma_word_low_bits};
use crate::decoding::{Instruction, Operand, Operation, decode_at, decode_next_instruction, fetchable};
use crate::error::EmulationError;
use crate::memory::{MemState, Memory, rom_loadable, tima_incremented};
use crate::semantics::{
    Machine, executable, exec_defined, execute_spec, operation_spec, hl_ptr, is_alu_src, is_target,
    is_byte_ptr, ld_shape, ld_defined, ld_outcome, ptr_address, push_defined, pop_defined,
    push_outcome, src8, src8_defined, write_target,
};

mod checks;
mod render;

verus! {

pub const SCREEN_W: usize = 160;

pub const SCREEN_H: usize = 144;

pub const BYTES_PER_PIXELS: usize = 4;  // rgba_u8

pub const TEXTURES_W: usize = 256;

/// Size in bytes of the 256 * 256 RGBA textures.
pub const TEXTURE_BYTES: usize = 262144;

/// Size in bytes of the 160 * 144 RGBA screen.
pub const FRAMEBUFFER_BYTES: usize = 92160;

/// The emulated console: processor, memory, timers and rendering buffers.
pub struct Gameboy {
    cpu: CPU,
    memory: Memory,
    // keeps track of cycles elapsed to update various registers
    div_cycles: u64,  // DIV TIMER
    ly_cycles: u64,  // LINE Y
    tima_cycles: u64,  // MAIN TIMER
    halted: bool,
    // rendering
    tile_atlas: Vec<u8>,  // used for objects to sample
    tilemap: Vec<u8>,  // a particular arrangement of tiles used as background
    framebuffer: Vec<u8>,  // the current state of the gameboy screen
}

/// The abstract value of the console.
pub struct GameboyState {
    pub machine: Machine,
    pub div_cycles: u64,
    pub ly_cycles: u64,
    pub tima_cycles: u64,
    pub tile_atlas: Seq<u8>,
    pub tilemap: Seq<u8>,
    pub framebuffer: Seq<u8>,
}

impl View for Gameboy {
    type V = GameboyState;

    closed spec fn view(&self) -> GameboyState {
        GameboyState {
            machine: Machine { cpu: self.cpu@, mem: self.memory@, halted: self.halted },
            div_cycles: self.div_cycles,
            ly_cycles: self.ly_cycles,
            tima_cycles: self.tima_cycles,
            tile_atlas: self.tile_atlas@,
            tilemap: self.tilemap@,
            framebuffer: self.framebuffer@,
        }
    }
}

impl GameboyState {
    pub open spec fn wf(self) -> bool {
        &&& self.machine.mem.wf()
        &&& self.tile_atlas.len() == TEXTURE_BYTES
        &&& self.tilemap.len() == TEXTURE_BYTES
        &&& self.framebuffer.len() == FRAMEBUFFER_BYTES
    }

    pub open spec fn with_machine(self, machine: Machine) -> GameboyState {
        GameboyState { machine, ..self }
    }
}

impl Gameboy {
    // constructor
    pub fn new(rom: Vec<u8>) -> (gb: Gameboy)
        requires
            rom_loadable(crate::memory::new_memory_state(), rom@),
        ensures
            gb@.wf(),
            gb@.machine.cpu == CPU::blank_state(),
            gb@.machine.mem == crate::memory::new_memory_state().loaded(rom@),
            !gb@.machine.halted,
            gb@.div_cycles == 0,
            gb@.ly_cycles == 0,
            gb@.tima_cycles == 0,
            gb@.tile_atlas == crate::memory::zeros(TEXTURE_BYTES as nat),
            gb@.tilemap == crate::memory::zeros(TEXTURE_BYTES as nat),
            gb@.framebuffer == crate::memory::zeros(FRAMEBUFFER_BYTES as nat),
    {
        let mut mem = Memory::new();
        mem.load_rom(rom);
        Gameboy {
            cpu: CPU::blank(),
            memory: mem,
            div_cycles: 0,
            ly_cycles: 0,
            tima_cycles: 0,
            halted: false,
            tile_atlas: crate::memory::zeroed(TEXTURE_BYTES),
            tilemap: crate::memory::zeroed(TEXTURE_BYTES),
            framebuffer: crate::memory::zeroed(FRAMEBUFFER_BYTES),
        }
    }

    // accessors to watch values
    pub fn cpu(&self) -> (cpu: &CPU)
        ensures
            cpu@ == self@.machine.cpu,
    {
        &self.cpu
    }

    pub fn memory(&self) -> (mem: &Memory)
        ensures
            mem@ == self@.machine.mem,
    {
        &self.memory
    }

    // ---- instruction execution ----

    /// The byte an accumulator or bit operation reads.
    fn read_src8(&self, y: &Operand) -> (v: u8)
        requires
            self@.wf(),
            is_alu_src(*y),
            src8_defined(self@.machine, *y),
        ensures
            v == src8(self@.machine, *y),
    {
        match y {
            Operand::IMM8(imm8) => *imm8,
            Operand::PTR(_) => {
                let hl = self.cpu.read_hl_register();
                self.memory.read_byte(hl)
            },
            _ => self.cpu.read_r8(y),
        }
    }

    /// Writes a byte to a register or to the byte at HL.
    fn write_target(&mut self, x: &Operand, v: u8) -> (r: Result<(), EmulationError>)
        requires
            old(self)@.wf(),
            is_target(*x),
            *x == hl_ptr() ==> MemState::writable(old(self)@.machine.cpu.hl()),
        ensures
            final(self)@.wf(),
            (final(self)@.machine, r) == write_target(old(self)@.machine, *x, v),
            final(self)@ == old(self)@.with_machine(final(self)@.machine),
    {
        match x {
            Operand::PTR(_) => {
                let hl = self.cpu.read_hl_register();
                self.memory.write_byte(hl, v)
            },
            _ => {
                self.cpu.write_r8(x, v);
                Ok(())
            },
        }
    }

    /// The address a byte pointer designates.
    fn pointer_address(&self, p: &Operand) -> (a: u16)
        requires
            is_byte_ptr(*p),
        ensures
            a == ptr_address(self@.machine.cpu, *p),
    {
        match p {
            Operand::R8_C => 0xFF00 + self.cpu.read_r8(&Operand::R8_C) as u16,
            Operand::IMM8(imm8) => 0xFF00 + *imm8 as u16,
            Operand::IMM16(address) => *address,
            _ => self.cpu.read_r16(p),
        }
    }

    /// The stack pointer moved by a signed offset.
    fn sp_offset(&self, offset: i8) -> (w: u16)
        ensures
            w == crate::cpu::offset_u16(self@.machine.cpu.sp, offset),
    {
        let sp = self.cpu.read_stack_pointer();
        if offset >= 0 {
            sp.wrapping_add(offset as u16)
        } else {
            sp.wrapping_sub((-(offset as i16)) as u16)
        }
    }

    fn exec_ld(&mut self, dst: Operand, src: Operand) -> (r: Result<(), EmulationError>)
        requires
            old(self)@.wf(),
            ld_shape(dst, src),
            ld_defined(old(self)@.machine, dst, src),
        ensures
            final(self)@.wf(),
            (final(self)@.machine, r) == ld_outcome(old(self)@.machine, dst, src),
            final(self)@ == old(self)@.with_machine(final(self)@.machine),
    {
        // some instructions auto-increment the hl register
        // the timing is important
        let mut decrement_hl = false;
        let mut increment_hl = false;
        let ghost m = self@.machine;
        match dst {
            // load into a 8-bit register
            Operand::R8_A | Operand::R8_B | Operand::R8_C | Operand::R8_D | Operand::R8_E
            | Operand::R8_H | Operand::R8_L => {
                let byte = match src {
                    // load from immediate byte
                    Operand::IMM8(imm8) => imm8,
                    // load from memory with pointer
                    Operand::PTR(ptr) => {
                        if matches!(*ptr, Operand::R16_HLI) {
                            increment_hl = true;
                        }
                        if matches!(*ptr, Operand::R16_HLD) {
                            decrement_hl = true;
                        }
                        let address = self.pointer_address(&*ptr);
                        self.memory.read_byte(address)
                    },
                    // load from another 8-bit register
                    _ => self.cpu.read_r8(&src),
                };
                self.cpu.write_r8(&dst, byte);
            },
            // load into a 16-bit register
            Operand::R16_BC | Operand::R16_DE | Operand::R16_HL | Operand::R16_SP => {
                let word = match src {
                    // load from immediate word
                    Operand::IMM16(imm16) => imm16,
                    // for 16-bit load, the memory location is always
                    // relative to the stack pointer, with a signed offset
                    Operand::PTR(ptr) => match *ptr {
                        Operand::IMM8_SIGNED(offset) => self.sp_offset(offset),
                        _ => vstd::pervasive::unreached(),
                    },
                    // special case of 0xF8
                    Operand::SP_PLUS_SIGNED_IMM8(imm8) => self.sp_offset(imm8),
                    // load from another 16-bit register
                    _ => self.cpu.read_r16(&src),
                };
                self.cpu.write_r16(&dst, word);
            },
            // load into memory
            Operand::PTR(ptr) => {
                if matches!(*ptr, Operand::R16_HLI) {
                    increment_hl = true;
                }
                if matches!(*ptr, Operand::R16_HLD) {
                    decrement_hl = true;
                }
                let address = self.pointer_address(&*ptr);
                match src {
                    // load word from sp register
                    Operand::R16_SP => {
                        let sp = self.cpu.read_r16(&Operand::R16_SP);
                        self.memory.write_word(address, sp)?;
                    },
                    // load immediate byte
                    Operand::IMM8(imm8) => {
                        self.memory.write_byte(address, imm8)?;
                    },
                    // load byte from r8
                    _ => {
                        let byte = self.cpu.read_r8(&src);
                        self.memory.write_byte(address, byte)?;
                    },
                }
            },
            _ => {
                return vstd::pervasive::unreached();
            },
        }
        if increment_hl {
            let hl = self.cpu.read_r16(&Operand::R16_HL);
            self.cpu.write_r16(&Operand::R16_HL, hl.wrapping_add(1));
        }
        if decrement_hl {
            let hl = self.cpu.read_r16(&Operand::R16_HL);
            self.cpu.write_r16(&Operand::R16_HL, hl.wrapping_sub(1));
        }
        Ok(())
    }
}


impl Gameboy {
    // utilities common to multiple opcodes

    fn push_word(&mut self, word: u16) -> (r: Result<(), EmulationError>)
        requires
            old(self)@.wf(),
            push_defined(old(self)@.machine),
        ensures
            final(self)@.wf(),
            (final(self)@.machine, r) == push_outcome(old(self)@.machine, word),
            final(self)@ == old(self)@.with_machine(final(self)@.machine),
    {
        // decrement stack pointer
        self.cpu.offset_stack_pointer(-2);
        // write word
        let sp = self.cpu.read_stack_pointer();
        self.memory.write_word(sp, word)?;
        Ok(())
    }

    fn pop_word(&mut self) -> (w: u16)
        requires
            old(self)@.wf(),
            pop_defined(old(self)@.machine),
        ensures
            final(self)@.wf(),
            w == old(self)@.machine.mem.read_word(old(self)@.machine.cpu.sp),
            final(self)@ == old(self)@.with_machine(
                old(self)@.machine.with_cpu(
                    CpuState {
                        sp: crate::cpu::offset_u16(old(self)@.machine.cpu.sp, 2i8),
                        ..old(self)@.machine.cpu
                    },
                ),
            ),
    {
        // read word
        let word = self.memory.read_word(self.cpu.read_stack_pointer());
        // increment stack pointer
        self.cpu.offset_stack_pointer(2);
        word
    }

    /// Accumulator operations: add, adc, sub, sbc, and, xor, or, cp.
    fn exec_alu(&mut self, instr: Instruction) -> (r: Result<u64, EmulationError>)
        requires
            old(self)@.wf(),
            executable(instr),
            exec_defined(old(self)@.machine, instr),
            instr.op is ADD || instr.op is ADC || instr.op is SUB || instr.op is SBC
                || instr.op is AND || instr.op is XOR || instr.op is OR || instr.op is CP,
        ensures
            final(self)@.wf(),
            (final(self)@.machine, r) == operation_spec(old(self)@.machine, instr),
            final(self)@ == old(self)@.with_machine(final(self)@.machine),
            r matches Ok(c) ==> c == instr.cycles || instr.branch_cycles == Some(c),
    {
        proof {
            reveal(crate::semantics::alu_spec);
        }
        let cycles_elapsed = instr.cycles;
        match instr.op {
            Operation::ADD { x, y } => {
                // add either does a + y and stores the result in a (8 bits)
                // or HL + y (16 bits)
                match x {
                    Operand::R8_A => {
                        let value = self.read_src8(&y);
                        let a = self.cpu.read_a_register();
                        let result = a.wrapping_add(value);
                        self.cpu.write_a_register(result);
                        proof {
                            lemma_byte_ops(a, 0);
                            lemma_byte_ops(value, 0);
                        }
                        // flags : z 0 h c
                        self.cpu.write_z_flag(result == 0);
                        self.cpu.write_n_flag(false);
                        self.cpu.write_h_flag((a & 0xF) + (value & 0xF) > 0xF);
                        self.cpu.write_c_flag(a as u16 + value as u16 > 0xFF);
                    },
                    _ => {
                        let value = self.cpu.read_r16(&y);
                        let hl = self.cpu.read_hl_register();
                        let result = hl.wrapping_add(value);
                        self.cpu.write_hl_register(result);
                        proof {
                            lemma_word_low_bits(hl);
                            lemma_word_low_bits(value);
                        }
                        // flags : - 0 h c
                        self.cpu.write_n_flag(false);
                        self.cpu.write_h_flag((hl & 0xFFF) + (value & 0xFFF) > 0xFFF);
                        self.cpu.write_c_flag(hl as u32 + value as u32 > 0xFFFF);
                    },
                }
            },
            Operation::ADC { y } => {
                // like add, but also adds the carry flag (hence the "c")
                let value = self.read_src8(&y);
                let a = self.cpu.read_a_register();
                let carry: u8 = if self.cpu.read_c_flag() { 1 } else { 0 };
                let result = a.wrapping_add(value).wrapping_add(carry);
                self.cpu.write_a_register(result);
                let sum: usize = value as usize + carry as usize;
                proof {
                    lemma_byte_ops(a, 0);
                    assert(sum & 0xF == sum % 16) by (bit_vector);
                    assert((a as usize) & 0xF == (a as usize) % 16) by (bit_vector);
                }
                // flags : z 0 h c
                self.cpu.write_z_flag(result == 0);
                self.cpu.write_n_flag(false);
                self.cpu.write_h_flag(((a as usize) & 0xF) + (sum & 0xF) > 0xF);
                self.cpu.write_c_flag((a as usize) + sum > 0xFF);
            },
            Operation::SUB { y } => {
                // sub does a - y and stores the result in a
                let a = self.cpu.read_a_register();
                let value = self.read_src8(&y);
                let result = a.wrapping_sub(value);
                self.cpu.write_a_register(result);
                proof {
                    lemma_byte_ops(a, 0);
                    lemma_byte_ops(value, 0);
                }
                // flags : z 1 h c
                self.cpu.write_z_flag(result == 0);
                self.cpu.write_n_flag(true);
                self.cpu.write_h_flag((a & 0xF) < (value & 0xF));
                self.cpu.write_c_flag(a < value);
            },
            Operation::SBC { y } => {
                // like sub, but also subtracts the carry flag (hence the "c")
                let value = self.read_src8(&y);
                let a = self.cpu.read_a_register();
                let carry: u8 = if self.cpu.read_c_flag() { 1 } else { 0 };
                let result = a.wrapping_sub(value).wrapping_sub(carry);
                self.cpu.write_a_register(result);
                let borrow = (a & 0xF).wrapping_sub(value & 0xF).wrapping_sub(carry);
                proof {
                    lemma_byte_ops(a, 0);
                    lemma_byte_ops(value, 0);
                    let la = a & 0xF;
                    let lv = value & 0xF;
                    assert(la < 16 && lv < 16 && carry <= 1 ==> ((la.wrapping_sub(lv).wrapping_sub(
                        carry,
                    )) & 0x10 == 0x10 <==> la < lv + carry)) by (bit_vector);
                }
                // flags : z 1 h c
                self.cpu.write_z_flag(result == 0);
                self.cpu.write_n_flag(true);
                self.cpu.write_h_flag(borrow & 0x10 == 0x10);
                self.cpu.write_c_flag((a as usize) < (value as usize + carry as usize));
            },
            Operation::XOR { y } => {
                // xor is always done with the a register as first operand (x)
                let a = self.cpu.read_r8(&Operand::R8_A);
                let other = self.read_src8(&y);
                self.cpu.write_r8(&Operand::R8_A, a ^ other);
                // xor flags : Z 0 0 0
                let z = self.cpu.read_r8(&Operand::R8_A) == 0;
                self.cpu.write_z_flag(z);
                self.cpu.write_n_flag(false);
                self.cpu.write_h_flag(false);
                self.cpu.write_c_flag(false);
            },
            Operation::OR { y } => {
                // or is always done with the a register as first operand (x)
                let a = self.cpu.read_r8(&Operand::R8_A);
                let other = self.read_src8(&y);
                self.cpu.write_r8(&Operand::R8_A, a | other);
                // or flags : Z 0 0 0
                let z = self.cpu.read_r8(&Operand::R8_A) == 0;
                self.cpu.write_z_flag(z);
                self.cpu.write_n_flag(false);
                self.cpu.write_h_flag(false);
                self.cpu.write_c_flag(false);
            },
            Operation::AND { y } => {
                // and is always done with the a register as first operand (x)
                let a = self.cpu.read_r8(&Operand::R8_A);
                let other = self.read_src8(&y);
                self.cpu.write_r8(&Operand::R8_A, a & other);
                // and flags : Z 0 1 0
                let z = self.cpu.read_r8(&Operand::R8_A) == 0;
                self.cpu.write_z_flag(z);
                self.cpu.write_n_flag(false);
                self.cpu.write_h_flag(true);
                self.cpu.write_c_flag(false);
            },
            _ => {
                // compare register a with another value
                let y = match instr.op {
                    Operation::CP { y } => y,
                    _ => vstd::pervasive::unreached(),
                };
                let a = self.cpu.read_r8(&Operand::R8_A);
                let other = self.read_src8(&y);
                proof {
                    lemma_byte_ops(a, 0);
                    lemma_byte_ops(other, 0);
                }
                // cp flags : Z 1 H C
                self.cpu.write_z_flag(a == other);
                self.cpu.write_n_flag(true);
                self.cpu.write_h_flag((a & 0xF) < (other & 0xF));
                self.cpu.write_c_flag(a < other);
            },
        }
        Ok(cycles_elapsed)
    }
}


impl Gameboy {
    /// Bit tests, resets and sets, and nibble swaps of a register or of the byte at HL.
    fn exec_bits(&mut self, instr: Instruction) -> (r: Result<u64, EmulationError>)
        requires
            old(self)@.wf(),
            executable(instr),
            exec_defined(old(self)@.machine, instr),
            instr.op is BIT || instr.op is RES || instr.op is SET || instr.op is SWAP,
        ensures
            final(self)@.wf(),
            (final(self)@.machine, r) == operation_spec(old(self)@.machine, instr),
            final(self)@ == old(self)@.with_machine(final(self)@.machine),
            r matches Ok(c) ==> c == instr.cycles || instr.branch_cycles == Some(c),
    {
        proof {
            reveal(crate::semantics::bit_op_spec);
        }
        let cycles_elapsed = instr.cycles;
        match instr.op {
            Operation::BIT { bit, src } => {
                // test bit in register / memory, set the zero flag to complement of bit
                let byte = self.read_src8(&src);
                proof {
                    lemma_bit_is_0_or_1(byte, bit);
                }
                // bit instruction flags : Z 0 1 -
                self.cpu.write_z_flag((byte >> bit) & 1 == 0);  // true if bit is 0, false if bit is 1
                self.cpu.write_n_flag(false);
                self.cpu.write_h_flag(true);
            },
            Operation::RES { bit, x } => {
                // set bit in register / memory to zero
                let byte = self.read_src8(&x);
                self.write_target(&x, byte & !(1u8 << bit))?;
                // no flags
            },
            Operation::SET { bit, x } => {
                // set bit in register / memory to 1
                let byte = self.read_src8(&x);
                self.write_target(&x, byte | (1u8 << bit))?;
                // no flags
            },
            _ => {
                let x = match instr.op {
                    Operation::SWAP { x } => x,
                    _ => vstd::pervasive::unreached(),
                };
                // swaps the upper 4 bits and the lower 4 ones
                let register = self.read_src8(&x);
                let lower_to_upper = register << 4;
                let upper_to_lower = register >> 4;
                proof {
                    lemma_byte_ops(register, 0);
                }
                self.write_target(&x, lower_to_upper | upper_to_lower)?;
                self.cpu.write_z_flag((lower_to_upper | upper_to_lower) == 0);
                // flags : z 0 0 0
                self.cpu.write_n_flag(false);
                self.cpu.write_h_flag(false);
                self.cpu.write_c_flag(false);
            },
        }
        Ok(cycles_elapsed)
    }

    /// Shifts and rotations of a register or of the byte at HL.
    fn exec_shift(&mut self, instr: Instruction) -> (r: Result<u64, EmulationError>)
        requires
            old(self)@.wf(),
            executable(instr),
            exec_defined(old(self)@.machine, instr),
            instr.op is RL || instr.op is RR || instr.op is RLC || instr.op is RRC
                || instr.op is SRL || instr.op is SLA,
        ensures
            final(self)@.wf(),
            (final(self)@.machine, r) == operation_spec(old(self)@.machine, instr),
            final(self)@ == old(self)@.with_machine(final(self)@.machine),
            r matches Ok(c) ==> c == instr.cycles || instr.branch_cycles == Some(c),
    {
        proof {
            reveal(crate::semantics::shift_op_spec);
        }
        let cycles_elapsed = instr.cycles;
        match instr.op {
            Operation::SRL { x } => {
                // shift right logical
                // for flags, see https://rgbds.gbdev.io/docs/v0.8.0/gbz80.7#SRL_r8
                let register = self.read_src8(&x);
                let carry = register & 1 == 1;
                let result = register >> 1;
                proof {
                    lemma_byte_ops(register, 0);
                }
                self.write_target(&x, result)?;
                // flags : z 0 0 c
                self.cpu.write_z_flag(result == 0);
                self.cpu.write_n_flag(false);
                self.cpu.write_h_flag(false);
                self.cpu.write_c_flag(carry);
            },
            Operation::SLA { x } => {
                // shift left arithmetic
                // for flags, see https://rgbds.gbdev.io/docs/v0.8.0/gbz80.7#SLA_r8
                let register = self.read_src8(&x);
                let carry = register >> 7 == 1;
                let result = register << 1;
                proof {
                    lemma_byte_ops(register, 0);
                }
                self.write_target(&x, result)?;
                // flags : z 0 0 c
                self.cpu.write_z_flag(result == 0);
                self.cpu.write_n_flag(false);
                self.cpu.write_h_flag(false);
                self.cpu.write_c_flag(carry);
            },
            Operation::RL { x } => {
                let to_rotate = self.read_src8(&x);
                // b7 to carry
                let previous_carry: u8 = if self.cpu.read_c_flag() { 1 } else { 0 };
                self.cpu.write_c_flag((to_rotate >> 7) & 1 == 1);
                proof {
                    lemma_byte_ops(to_rotate, previous_carry);
                }
                // rotate number left with carry
                let rotated = (to_rotate << 1) | previous_carry;
                // write back the number
                self.write_target(&x, rotated)?;
                // flags : z 0 0 c
                self.cpu.write_z_flag(rotated == 0);
                self.cpu.write_n_flag(false);
                self.cpu.write_h_flag(false);
            },
            Operation::RR { x } => {
                let to_rotate = self.read_src8(&x);
                // b0 to carry
                let previous_carry: u8 = if self.cpu.read_c_flag() { 1 } else { 0 };
                self.cpu.write_c_flag(to_rotate & 1 == 1);
                proof {
                    lemma_byte_ops(to_rotate, previous_carry);
                }
                // rotate number right with carry
                let rotated = (to_rotate >> 1) | (previous_carry << 7);
                // write back the number
                self.write_target(&x, rotated)?;
                // flags : z 0 0 c
                self.cpu.write_z_flag(rotated == 0);
                self.cpu.write_n_flag(false);
                self.cpu.write_h_flag(false);
            },
            Operation::RLC { x } => {
                let to_rotate = self.read_src8(&x);
                // b7 to carry
                let previous_b7: u8 = (to_rotate >> 7) & 1;
                proof {
                    lemma_byte_ops(to_rotate, 0);
                    lemma_byte_ops(to_rotate, previous_b7);
                }
                self.cpu.write_c_flag(previous_b7 == 1);
                // rotate number left
                let rotated = (to_rotate << 1) | previous_b7;
                // write back the number
                self.write_target(&x, rotated)?;
                // flags : z 0 0 c
                self.cpu.write_z_flag(rotated == 0);
                self.cpu.write_n_flag(false);
                self.cpu.write_h_flag(false);
            },
            _ => {
                let x = match instr.op {
                    Operation::RRC { x } => x,
                    _ => vstd::pervasive::unreached(),
                };
                let to_rotate = self.read_src8(&x);
                // b0 to carry
                let previous_b0: u8 = to_rotate & 1;
                proof {
                    lemma_byte_ops(to_rotate, 0);
                    lemma_byte_ops(to_rotate, previous_b0);
                }
                self.cpu.write_c_flag(previous_b0 == 1);
                // rotate number right
                let rotated = (to_rotate >> 1) | (previous_b0 << 7);
                // write back the number
                self.write_target(&x, rotated)?;
                // flags : z 0 0 c
                self.cpu.write_z_flag(rotated == 0);
                self.cpu.write_n_flag(false);
                self.cpu.write_h_flag(false);
            },
        }
        Ok(cycles_elapsed)
    }

    /// Increments and decrements of a register, a register pair or the byte at HL.
    fn exec_inc_dec(&mut self, instr: Instruction) -> (r: Result<u64, EmulationError>)
        requires
            old(self)@.wf(),
            executable(instr),
            exec_defined(old(self)@.machine, instr),
            instr.op is INC || instr.op is DEC,
        ensures
            final(self)@.wf(),
            (final(self)@.machine, r) == operation_spec(old(self)@.machine, instr),
            final(self)@ == old(self)@.with_machine(final(self)@.machine),
            r matches Ok(c) ==> c == instr.cycles || instr.branch_cycles == Some(c),
    {
        proof {
            reveal(crate::semantics::inc_dec_spec);
        }
        let cycles_elapsed = instr.cycles;
        match instr.op {
            Operation::INC { x } => match x {
                // increment 16-bit register
                Operand::R16_BC | Operand::R16_DE | Operand::R16_HL | Operand::R16_SP => {
                    let reg = self.cpu.read_r16(&x);
                    let result = reg.wrapping_add(1);
                    self.cpu.write_r16(&x, result);
                    // no flags for 16-bit increment
                },
                // increment 8-bit register or memory at address in hl
                _ => {
                    let reg = self.read_src8(&x);
                    let result = reg.wrapping_add(1);
                    proof {
                        lemma_byte_ops(reg, 0);
                    }
                    self.write_target(&x, result)?;
                    // inc flags : Z 0 H -
                    self.cpu.write_z_flag(result == 0);
                    self.cpu.write_n_flag(false);
                    self.cpu.write_h_flag((reg & 0xF) == 0xF);
                },
            },
            _ => {
                let x = match instr.op {
                    Operation::DEC { x } => x,
                    _ => vstd::pervasive::unreached(),
                };
                match x {
                    // decrement 16-bit register
                    Operand::R16_BC | Operand::R16_DE | Operand::R16_HL | Operand::R16_SP => {
                        let reg = self.cpu.read_r16(&x);
                        let result = reg.wrapping_sub(1);
                        self.cpu.write_r16(&x, result);
                    },
                    // decrement 8-bit register or memory at address in hl
                    _ => {
                        let reg = self.read_src8(&x);
                        let result = reg.wrapping_sub(1);
                        proof {
                            lemma_byte_ops(reg, 0);
                        }
                        self.write_target(&x, result)?;
                        // dec flags : Z 1 H -
                        self.cpu.write_z_flag(result == 0);
                        self.cpu.write_n_flag(true);
                        self.cpu.write_h_flag((reg & 0xF) == 0);
                    },
                }
            },
        }
        Ok(cycles_elapsed)
    }
}


impl Gameboy {
    /// Jumps, calls, returns, pushes and pops.
    fn exec_flow(&mut self, instr: Instruction) -> (r: Result<u64, EmulationError>)
        requires
            old(self)@.wf(),
            executable(instr),
            exec_defined(old(self)@.machine, instr),
            instr.op is JR || instr.op is JR_CC || instr.op is JP || instr.op is JP_CC
                || instr.op is CALL || instr.op is CALL_CC || instr.op is RST || instr.op is RET
                || instr.op is RET_CC || instr.op is RETI || instr.op is PUSH || instr.op is POP,
        ensures
            final(self)@.wf(),
            (final(self)@.machine, r) == operation_spec(old(self)@.machine, instr),
            final(self)@ == old(self)@.with_machine(final(self)@.machine),
            r matches Ok(c) ==> c == instr.cycles || instr.branch_cycles == Some(c),
    {
        proof {
            reveal(crate::semantics::flow_spec);
        }
        let mut cycles_elapsed = instr.cycles;
        let branch_cycles = instr.branch_cycles;
        match instr.op {
            Operation::JR { offset_oprd } => {
                let offset = match offset_oprd {
                    Operand::IMM8_SIGNED(offset) => offset,
                    _ => vstd::pervasive::unreached(),
                };
                self.cpu.offset_program_counter(offset);
            },
            Operation::JR_CC { cc, offset_oprd } => {
                let should_jump = self.cpu.get_cc(&cc);
                if should_jump {
                    let offset = match offset_oprd {
                        Operand::IMM8_SIGNED(offset) => offset,
                        _ => vstd::pervasive::unreached(),
                    };
                    cycles_elapsed = branch_cycles.unwrap();
                    self.cpu.offset_program_counter(offset);
                }
            },
            Operation::JP { addr } => {
                // jp instruction only takes either an imm16 or the hl register
                let address = match addr {
                    Operand::IMM16(imm16) => imm16,
                    _ => self.cpu.read_hl_register(),
                };
                self.cpu.write_program_counter(address);
            },
            Operation::JP_CC { cc, addr } => {
                if self.cpu.get_cc(&cc) {
                    // jp instruction only takes either an imm16 or the hl register
                    let address = match addr {
                        Operand::IMM16(imm16) => imm16,
                        _ => self.cpu.read_hl_register(),
                    };
                    self.cpu.write_program_counter(address);
                    cycles_elapsed = branch_cycles.unwrap();
                }
            },
            Operation::CALL { proc } => {
                let address = match proc {
                    Operand::IMM16(imm16) => imm16,
                    _ => vstd::pervasive::unreached(),
                };
                // push the return address to the stack
                let current_pc = self.cpu.read_program_counter();
                self.push_word(current_pc)?;
                // jump to the procedure
                self.cpu.write_program_counter(address);
            },
            Operation::CALL_CC { cc, proc } => {
                let address = match proc {
                    Operand::IMM16(imm16) => imm16,
                    _ => vstd::pervasive::unreached(),
                };
                if self.cpu.get_cc(&cc) {
                    // push the return address to the stack
                    let current_pc = self.cpu.read_program_counter();
                    self.push_word(current_pc)?;
                    // jump to the procedure
                    self.cpu.write_program_counter(address);
                    // update the cycles elapsed since we branched
                    cycles_elapsed = branch_cycles.unwrap();
                }
            },
            Operation::RST { addr } => {
                // rst is like call, but only for a few fixed addresses
                let address = match addr {
                    Operand::IMM16(imm16) => imm16,
                    _ => vstd::pervasive::unreached(),
                };
                // push the return address to the stack
                let current_pc = self.cpu.read_program_counter();
                self.push_word(current_pc)?;
                // jump to the procedure
                self.cpu.write_program_counter(address);
            },
            Operation::RET => {
                let return_address = self.pop_word();
                // jump to where the procedure was called
                self.cpu.write_program_counter(return_address);
            },
            Operation::RET_CC { cc } => {
                let should_return = self.cpu.get_cc(&cc);
                if should_return {
                    cycles_elapsed = branch_cycles.unwrap();
                    let return_address = self.pop_word();
                    // jump to where the procedure was called
                    self.cpu.write_program_counter(return_address);
                }
            },
            Operation::RETI => {
                let return_address = self.pop_word();
                // jump to where the procedure was called
                self.cpu.write_program_counter(return_address);
                // re-enable interrupts
                self.cpu.enable_interrupts();
            },
            Operation::PUSH { reg } => {
                let to_push = self.cpu.read_r16(&reg);
                self.push_word(to_push)?;
            },
            _ => {
                let reg = match instr.op {
                    Operation::POP { reg } => reg,
                    _ => vstd::pervasive::unreached(),
                };
                let word = self.pop_word();
                self.cpu.write_r16(&reg, word);
            },
        }
        Ok(cycles_elapsed)
    }

    /// Accumulator rotations and adjustments, interrupt switches, complement and halt.
    fn exec_misc(&mut self, instr: Instruction) -> (r: Result<u64, EmulationError>)
        requires
            old(self)@.wf(),
            instr.op is NOP || instr.op is RLA || instr.op is RRA || instr.op is RLCA
                || instr.op is RRCA || instr.op is DAA || instr.op is DI || instr.op is EI
                || instr.op is CPL || instr.op is HALT,
        ensures
            final(self)@.wf(),
            (final(self)@.machine, r) == operation_spec(old(self)@.machine, instr),
            final(self)@ == old(self)@.with_machine(final(self)@.machine),
            r matches Ok(c) ==> c == instr.cycles || instr.branch_cycles == Some(c),
    {
        proof {
            reveal(crate::semantics::control_spec);
        }
        let cycles_elapsed = instr.cycles;
        match instr.op {
            Operation::NOP => {
                // nothing to do
            },
            Operation::RLA => {
                // rotate a register
                let to_rotate = self.cpu.read_r8(&Operand::R8_A);
                // b7 to carry
                let previous_carry: u8 = if self.cpu.read_c_flag() { 1 } else { 0 };
                self.cpu.write_c_flag((to_rotate >> 7) & 1 == 1);
                proof {
                    lemma_byte_ops(to_rotate, previous_carry);
                }
                // rotate number left with carry
                let rotated = (to_rotate << 1) | previous_carry;
                // write back the number
                self.cpu.write_r8(&Operand::R8_A, rotated);
                // flags : 0 0 0 c
                self.cpu.write_z_flag(false);
                self.cpu.write_n_flag(false);
                self.cpu.write_h_flag(false);
            },
            Operation::RRA => {
                // rotate a register
                let to_rotate = self.cpu.read_r8(&Operand::R8_A);
                // b0 to carry
                let previous_carry: u8 = if self.cpu.read_c_flag() { 1 } else { 0 };
                self.cpu.write_c_flag(to_rotate & 1 == 1);
                proof {
                    lemma_byte_ops(to_rotate, previous_carry);
                }
                // rotate number right with carry
                let rotated = (to_rotate >> 1) | (previous_carry << 7);
                // write back the number
                self.cpu.write_r8(&Operand::R8_A, rotated);
                // flags : 0 0 0 c
                self.cpu.write_z_flag(false);
                self.cpu.write_n_flag(false);
                self.cpu.write_h_flag(false);
            },
            Operation::RLCA => {
                let to_rotate = self.cpu.read_r8(&Operand::R8_A);
                // b7 to carry
                let previous_b7: u8 = (to_rotate >> 7) & 1;
                proof {
                    lemma_byte_ops(to_rotate, 0);
                    lemma_byte_ops(to_rotate, previous_b7);
                }
                self.cpu.write_c_flag(previous_b7 == 1);
                // rotate number left
                let rotated = (to_rotate << 1) | previous_b7;
                // write back the number
                self.cpu.write_r8(&Operand::R8_A, rotated);
                // flags : 0 0 0 c
                self.cpu.write_z_flag(false);
                self.cpu.write_n_flag(false);
                self.cpu.write_h_flag(false);
            },
            Operation::RRCA => {
                // rotate 8-bit register
                let to_rotate = self.cpu.read_r8(&Operand::R8_A);
                // b0 to carry
                let previous_b0: u8 = to_rotate & 1;
                proof {
                    lemma_byte_ops(to_rotate, 0);
                    lemma_byte_ops(to_rotate, previous_b0);
                }
                self.cpu.write_c_flag(previous_b0 == 1);
                // rotate number right
                let rotated = (to_rotate >> 1) | (previous_b0 << 7);
                // write back the number
                self.cpu.write_r8(&Operand::R8_A, rotated);
                // flags : 0 0 0 c
                self.cpu.write_z_flag(false);
                self.cpu.write_n_flag(false);
                self.cpu.write_h_flag(false);
            },
            Operation::DAA => {
                // https://blog.ollien.com/posts/gb-daa/
                let mut offset: u8 = 0;
                let a = self.cpu.read_a_register();
                let half_carry = self.cpu.read_h_flag();
                let carry = self.cpu.read_c_flag();
                let n = self.cpu.read_n_flag();
                proof {
                    lemma_byte_ops(a, 0);
                    assert((0u8 | 0x06u8) == 0x06u8) by (bit_vector);
                    assert((0u8 | 0x60u8) == 0x60u8) by (bit_vector);
                    assert((6u8 | 0x60u8) == 0x66u8) by (bit_vector);
                }
                if (!n && a & 0xF > 0x9) || half_carry {
                    offset = offset | 0x06;
                }
                if (!n && a > 0x99) || carry {
                    offset = offset | 0x60;
                }
                let adjusted = if !n {
                    a.wrapping_add(offset)
                } else {
                    a.wrapping_sub(offset)
                };
                self.cpu.write_a_register(adjusted);
                // flags : z - 0 c
                let z = self.cpu.read_a_register() == 0;
                self.cpu.write_z_flag(z);
                self.cpu.write_h_flag(false);
                let c = carry || (!n && self.cpu.read_a_register() > 0x99);
                self.cpu.write_c_flag(c);
            },
            Operation::DI => {
                self.cpu.disable_interrupts();
            },
            Operation::EI => {
                self.cpu.enable_interrupts();
            },
            Operation::CPL => {
                let accumulator = self.cpu.read_a_register();
                self.cpu.write_a_register(!accumulator);
                // flags : - 1 1 -
                self.cpu.write_n_flag(true);
                self.cpu.write_h_flag(true);
            },
            _ => {
                // HALT
                // https://rgbds.gbdev.io/docs/v0.8.0/gbz80.7#HALT
                if self.cpu.interrupts_enabled() {
                    self.halted = true;
                } else {
                    if !self.memory.interrupt_pending_and_enabled() {
                        self.halted = true;
                    } else {
                        // so called "halt bug", not emulated
                    }
                }
            },
        }
        Ok(cycles_elapsed)
    }

    /// Runs one decoded instruction.
    fn execute_instruction(&mut self, instr: Instruction) -> (r: Result<u64, EmulationError>)
        requires
            old(self)@.wf(),
            executable(instr),
            exec_defined(old(self)@.machine, instr),
        ensures
            final(self)@.wf(),
            (final(self)@.machine, r) == execute_spec(old(self)@.machine, instr),
            final(self)@ == old(self)@.with_machine(final(self)@.machine),
            r matches Ok(c) ==> c == instr.cycles || instr.branch_cycles == Some(c),
    {
        proof {
            reveal(crate::semantics::load_spec);
        }
        // increment PC before everything
        // seems consistent with the fact that relative jumps
        // are relative to the end of the jr instructions
        self.cpu.increment_program_counter(instr.size);
        proof {
            crate::semantics::lemma_exec_defined_ignores_pc(old(self)@.machine, instr, self@.machine.cpu.pc);
        }
        if matches!(instr.op, Operation::LD { .. }) {
            let cycles_elapsed = instr.cycles;
            match instr.op {
                Operation::LD { dst, src } => {
                    self.exec_ld(dst, src)?;
                },
                _ => {},
            }
            Ok(cycles_elapsed)
        } else if matches!(instr.op, Operation::ADD { .. } | Operation::ADC { .. } | Operation::SUB { .. }
            | Operation::SBC { .. } | Operation::AND { .. } | Operation::XOR { .. } | Operation::OR { .. }
            | Operation::CP { .. }) {
            self.exec_alu(instr)
        } else if matches!(instr.op, Operation::INC { .. } | Operation::DEC { .. }) {
            self.exec_inc_dec(instr)
        } else if matches!(instr.op, Operation::BIT { .. } | Operation::RES { .. } | Operation::SET { .. }
            | Operation::SWAP { .. }) {
            self.exec_bits(instr)
        } else if matches!(instr.op, Operation::RL { .. } | Operation::RR { .. } | Operation::RLC { .. }
            | Operation::RRC { .. } | Operation::SRL { .. } | Operation::SLA { .. }) {
            self.exec_shift(instr)
        } else if matches!(instr.op, Operation::JR { .. } | Operation::JR_CC { .. } | Operation::JP { .. }
            | Operation::JP_CC { .. } | Operation::CALL { .. } | Operation::CALL_CC { .. }
            | Operation::RST { .. } | Operation::RET | Operation::RET_CC { .. } | Operation::RETI
            | Operation::PUSH { .. } | Operation::POP { .. }) {
            self.exec_flow(instr)
        } else {
            self.exec_misc(instr)
        }
    }
}


/// The console after screen line LY is drawn: nothing past the last line; a
/// blank line when the screen is off; otherwise (the atlas and the background
/// map being redrawn first on line 0) the background, then the objects.
pub open spec fn draw_line_spec(s: GameboyState) -> GameboyState {
    let mem = s.machine.mem;
    let line = mem.io[0x44] as int;
    if line >= 144 {
        s
    } else if !crate::cpu::bit_of(mem.io[0x40], 7) {
        GameboyState { framebuffer: crate::ppu::blank_line(s.framebuffer, line), ..s }
    } else {
        let atlas = if line == 0 { crate::ppu::colored_atlas(s.tile_atlas, mem) } else { s.tile_atlas };
        let tilemap = if line == 0 { crate::ppu::colored_tilemap(mem) } else { s.tilemap };
        let fb = crate::ppu::bg_line(s.framebuffer, tilemap, line, mem.io[0x43] as int, mem.io[0x42] as int);
        GameboyState {
            tile_atlas: atlas,
            tilemap,
            framebuffer: crate::ppu::draw_objects(fb, atlas, mem, line, 40),
            ..s
        }
    }
}

// ---- interrupts ----
// https://gbdev.io/pandocs/Interrupts.html

/// Whether interrupt `i` is both requested and enabled.
pub open spec fn interrupt_pending(m: Machine, i: u8) -> bool {
    bit_of(m.mem.ie, i) && bit_of(m.mem.io[0x0F], i)
}

/// Serving interrupt `i`: interrupts are disabled, the request is cleared,
/// the program counter is pushed and PC jumps to `vector`.
pub open spec fn serve_interrupt(m: Machine, i: u8, vector: u16) -> (Machine, Result<(), EmulationError>) {
    let m1 = Machine {
        cpu: CpuState { ime: false, ..m.cpu },
        mem: MemState { io: m.mem.io.update(0x0F, m.mem.io[0x0F] & !pow2_u8(i)), ..m.mem },
        ..m
    };
    let (m2, r) = push_outcome(m1, m1.cpu.pc);
    if r is Err {
        (m2, r)
    } else {
        (m2.with_cpu(CpuState { pc: vector, ..m2.cpu }), Ok(()))
    }
}

/// The interrupt served, by priority: V-blank, then timer.
pub open spec fn interrupts_spec(m: Machine) -> (Machine, Result<(), EmulationError>) {
    if !m.cpu.ime {
        (m, Ok(()))
    } else if interrupt_pending(m, 0) {
        serve_interrupt(m, 0, 0x40)
    } else if interrupt_pending(m, 2) {
        serve_interrupt(m, 2, 0x50)
    } else {
        (m, Ok(()))
    }
}

/// Whether serving interrupts is defined: the LCD, serial and joypad
/// interrupts are not served, and the stack must be writable.
pub open spec fn interrupts_defined(m: Machine) -> bool {
    m.cpu.ime ==> if interrupt_pending(m, 0) {
        push_defined(m)
    } else if interrupt_pending(m, 1) {
        false
    } else if interrupt_pending(m, 2) {
        push_defined(m)
    } else {
        !interrupt_pending(m, 3) && !interrupt_pending(m, 4)
    }
}

// ---- timers and screen lines ----

/// The number of cycles between two increments of TIMA, selected by TAC.
pub open spec fn timer_period(tac: u8) -> u64 {
    let select = tac % 4;
    if select == 0 {
        1024
    } else if select == 1 {
        16
    } else if select == 2 {
        64
    } else {
        256
    }
}

/// The timers after the cycles elapsed are counted: TIMA when it is started
/// and its period has elapsed, DIV every 256 cycles, and the line counter
/// reset while the screen is off.
pub open spec fn timers_spec(s: GameboyState) -> GameboyState {
    let mem0 = s.machine.mem;
    let s1 = if bit_of(mem0.io[0x07], 2) && s.tima_cycles >= timer_period(mem0.io[0x07]) {
        GameboyState {
            tima_cycles: 0,
            machine: s.machine.with_mem(MemState { io: tima_incremented(mem0.io), ..mem0 }),
            ..s
        }
    } else {
        s
    };
    let mem1 = s1.machine.mem;
    let s2 = if s1.div_cycles >= 256 {
        GameboyState {
            div_cycles: (s1.div_cycles - 256) as u64,
            machine: s1.machine.with_mem(
                MemState { io: mem1.io.update(0x04, mem1.io[0x04].wrapping_add(1)), ..mem1 },
            ),
            ..s1
        }
    } else {
        s1
    };
    if !bit_of(s2.machine.mem.io[0x40], 7) {
        GameboyState { ly_cycles: 0, ..s2 }
    } else {
        s2
    }
}

/// The console after a full line time: LY moves to the next line (of 154),
/// which is drawn.
pub open spec fn next_line_spec(s: GameboyState) -> GameboyState {
    let mem = s.machine.mem;
    draw_line_spec(
        GameboyState {
            ly_cycles: (s.ly_cycles - (80 + 172 + 204)) as u64,
            machine: s.machine.with_mem(
                MemState { io: mem.io.update(0x44, ((mem.io[0x44] + 1) % 154) as u8), ..mem },
            ),
            ..s
        },
    )
}

/// The registers updated between two instructions: timers, the current line
/// (with the V-blank interrupt requested on line 144) and the LY == LYC bit of STAT.
pub open spec fn misc_spec(s: GameboyState) -> GameboyState {
    let s3 = timers_spec(s);
    let s4 = if s3.ly_cycles >= 80 + 172 + 204 {
        let s_drawn = next_line_spec(s3);
        let mem = s_drawn.machine.mem;
        if mem.io[0x44] == 144 {
            // V-BLANK INTERRUPT
            s_drawn.with_machine(
                s_drawn.machine.with_mem(
                    MemState { io: mem.io.update(0x0F, mem.io[0x0F] | pow2_u8(0)), ..mem },
                ),
            )
        } else {
            s_drawn
        }
    } else {
        s3
    };
    // LY - LYC compare : https://gbdev.io/pandocs/STAT.html#ff45--lyc-ly-compare
    let mem4 = s4.machine.mem;
    let stat = mem4.io[0x41];
    let new_stat = if mem4.io[0x44] == mem4.io[0x45] { stat | 0b_0000_0100 } else { stat & 0b_1111_1011 };
    s4.with_machine(s4.machine.with_mem(MemState { io: mem4.io.update(0x41, new_stat), ..mem4 }))
}

// ---- a step of the console ----

/// An error gets the program counter of the instruction when it has none.
pub open spec fn with_error_pc(e: EmulationError, pc: u16) -> EmulationError {
    if e.pc is None {
        EmulationError { pc: Some(pc), ..e }
    } else {
        e
    }
}

/// After an instruction: interrupts are served, the registers updated, and
/// the cycles counted.
pub open spec fn finish_step(s: GameboyState, cycles: u64) -> (GameboyState, Result<u64, EmulationError>) {
    let (m, r) = interrupts_spec(s.machine);
    match r {
        Err(e) => (s.with_machine(m), Err(e)),
        Ok(_) => {
            let s2 = misc_spec(s.with_machine(m));
            (
                GameboyState {
                    div_cycles: (s2.div_cycles + cycles) as u64,
                    ly_cycles: (s2.ly_cycles + cycles) as u64,
                    tima_cycles: (s2.tima_cycles + cycles) as u64,
                    ..s2
                },
                Ok(cycles),
            )
        },
    }
}

/// Whether finishing a step is defined: the interrupts it serves are handled.
pub open spec fn finish_defined(s: GameboyState) -> bool {
    interrupts_defined(s.machine)
}

/// One step of the console: a halted processor waits 4 cycles (and wakes up
/// when an enabled interrupt is requested); otherwise the instruction at PC
/// is decoded and run.
pub open spec fn step_spec(s: GameboyState) -> (GameboyState, Result<u64, EmulationError>) {
    let m = s.machine;
    if m.halted {
        if m.mem.ie & m.mem.io[0x0F] != 0 {
            let (m1, r) = interrupts_spec(Machine { halted: false, ..m });
            match r {
                Err(e) => (s.with_machine(m1), Err(e)),
                Ok(_) => finish_step(s.with_machine(m1), 4),
            }
        } else {
            finish_step(s, 4)
        }
    } else {
        match decode_at(m.mem, m.cpu.pc) {
            Err(e) => (s, Err(e)),
            Ok(i) => {
                let (m1, r) = execute_spec(m, i);
                match r {
                    Err(e) => (s.with_machine(m1), Err(with_error_pc(e, m.cpu.pc))),
                    Ok(c) => finish_step(s.with_machine(m1), c),
                }
            },
        }
    }
}

/// Whether a step is defined: the instruction at PC can be read, running it
/// and serving interrupts touch only mapped memory, and the cycle counters
/// are far from their limit.
pub open spec fn step_defined(s: GameboyState) -> bool {
    let m = s.machine;
    &&& s.div_cycles <= u64::MAX - 24
    &&& s.ly_cycles <= u64::MAX - 24
    &&& s.tima_cycles <= u64::MAX - 24
    &&& if m.halted {
        if m.mem.ie & m.mem.io[0x0F] != 0 {
            let m0 = Machine { halted: false, ..m };
            &&& interrupts_defined(m0)
            &&& interrupts_spec(m0).1 is Ok ==> finish_defined(s.with_machine(interrupts_spec(m0).0))
        } else {
            finish_defined(s)
        }
    } else {
        &&& fetchable(m.mem, m.cpu.pc)
        &&& decode_at(m.mem, m.cpu.pc) matches Ok(i) ==> {
            &&& exec_defined(m, i)
            &&& execute_spec(m, i).1 is Ok ==> finish_defined(s.with_machine(execute_spec(m, i).0))
        }
    }
}


impl Gameboy {
    /// Serves interrupt `i`: disables interrupts, clears the request, pushes PC and jumps.
    fn serve_interrupt(&mut self, interrupt: u8, vector: u16) -> (r: Result<(), EmulationError>)
        requires
            old(self)@.wf(),
            interrupt < 8,
            push_defined(old(self)@.machine),
        ensures
            final(self)@.wf(),
            (final(self)@.machine, r) == serve_interrupt(old(self)@.machine, interrupt, vector),
            final(self)@ == old(self)@.with_machine(final(self)@.machine),
    {
        self.cpu.disable_interrupts();
        self.memory.clear_interrupt(interrupt);
        let pc = self.cpu.read_program_counter();
        self.push_word(pc)?;
        self.cpu.write_program_counter(vector);
        Ok(())
    }

    fn handle_interrupts(&mut self) -> (r: Result<(), EmulationError>)
        requires
            old(self)@.wf(),
            interrupts_defined(old(self)@.machine),
        ensures
            final(self)@.wf(),
            (final(self)@.machine, r) == interrupts_spec(old(self)@.machine),
            final(self)@ == old(self)@.with_machine(final(self)@.machine),
    {
        if !self.cpu.interrupts_enabled() {
            return Ok(());
        }
        // interrupts are priority-based, so we need to check in order
        // VBLANK
        if self.memory.is_interrupt_enabled(0) && self.memory.is_interrupt_requested(0) {
            self.serve_interrupt(0, 0x40)?;
        }
        // LCD
        else if self.memory.is_interrupt_enabled(1) && self.memory.is_interrupt_requested(1) {
            // LCD INTERRUPT REQUESTED AND ENABLED: not served
            return vstd::pervasive::unreached();
        }
        // TIMER
        else if self.memory.is_interrupt_enabled(2) && self.memory.is_interrupt_requested(2) {
            self.serve_interrupt(2, 0x50)?;
            // FIXME : Interrupts should take a lot more time to execute
            // https://gbdev.io/pandocs/Interrupts.html
        }
        // SERIAL
        else if self.memory.is_interrupt_enabled(3) && self.memory.is_interrupt_requested(3) {
            // SERIAL INTERRUPT REQUESTED AND ENABLED: not served
            return vstd::pervasive::unreached();
        }
        // JOYPAD
        else if self.memory.is_interrupt_enabled(4) && self.memory.is_interrupt_requested(4) {
            // JOYPAD INTERRUPT REQUESTED AND ENABLED: not served
            return vstd::pervasive::unreached();
        }
        Ok(())
    }

    fn update_misc(&mut self)
        requires
            old(self)@.wf(),
        ensures
            final(self)@.wf(),
            final(self)@ == misc_spec(old(self)@),
    {
        let ghost s0 = self@;
        // TIMA counter
        if self.memory.is_timer_started() {
            // incrementing frequency is decided by the TAC register
            // this variable is actually more of a period than a frequency
            let tac = self.memory.read_byte(0xFF07);
            proof {
                assert(tac & 0b11 == tac % 4) by (bit_vector);
            }
            let select = tac & 0b11;
            let freq: u64 = if select == 0b00 {
                1024
            } else if select == 0b01 {
                16
            } else if select == 0b10 {
                64
            } else {
                256
            };
            if self.tima_cycles >= freq {
                // FIXME : maybe this should be a subtraction, tima behavior is weird
                // https://github.com/Hacktix/GBEDG/blob/master/timers/index.md
                self.tima_cycles = 0;
                self.memory.increment_tima();
            }
        }
        // DIV register
        if self.div_cycles >= 256 {
            self.div_cycles = self.div_cycles - 256;
            self.memory.increment_div();
        }
        // LY register
        if !self.memory.is_lcd_enabled() {
            self.ly_cycles = 0;
        }
        assert(self@ == timers_spec(s0));
        if self.ly_cycles >= 80 + 172 + 204 {
            self.ly_cycles = self.ly_cycles - (80 + 172 + 204);
            self.memory.increment_ly();
            self.draw_current_line();
            assert(self@ == next_line_spec(timers_spec(s0)));
            if self.memory.read_byte(0xFF44) == 144 {
                // V-BLANK INTERRUPT
                self.memory.request_interrupt(0);
            }
        }
        // LY - LYC compare : https://gbdev.io/pandocs/STAT.html#ff45--lyc-ly-compare
        let ly = self.memory.read_byte(0xFF44);
        let lyc = self.memory.read_byte(0xFF45);
        self.memory.update_lcd_stat_lcy_eq_ly(ly == lyc);
        // FIXME : update the PPU mode too : https://gbdev.io/pandocs/STAT.html#ff41--stat-lcd-status
    }

    /// Serves interrupts, updates the registers and counts the cycles elapsed.
    fn finish_step(&mut self, cycles_elapsed: u64) -> (r: Result<u64, EmulationError>)
        requires
            old(self)@.wf(),
            finish_defined(old(self)@),
            cycles_elapsed <= 24,
            old(self)@.div_cycles <= u64::MAX - 24,
            old(self)@.ly_cycles <= u64::MAX - 24,
            old(self)@.tima_cycles <= u64::MAX - 24,
        ensures
            final(self)@.wf(),
            (final(self)@, r) == finish_step(old(self)@, cycles_elapsed),
    {
        self.handle_interrupts()?;
        self.update_misc();
        // update timing infos
        self.div_cycles = self.div_cycles + cycles_elapsed;
        self.ly_cycles = self.ly_cycles + cycles_elapsed;
        self.tima_cycles = self.tima_cycles + cycles_elapsed;
        Ok(cycles_elapsed)
    }

    /// Decodes and runs the instruction at PC.
    fn run_next_instruction(&mut self) -> (r: Result<u64, EmulationError>)
        requires
            old(self)@.wf(),
            fetchable(old(self)@.machine.mem, old(self)@.machine.cpu.pc),
            decode_at(old(self)@.machine.mem, old(self)@.machine.cpu.pc) matches Ok(i) ==> exec_defined(
                old(self)@.machine,
                i,
            ),
        ensures
            final(self)@.wf(),
            final(self)@ == old(self)@.with_machine(final(self)@.machine),
            r is Ok ==> r->Ok_0 <= 24,
            match decode_at(old(self)@.machine.mem, old(self)@.machine.cpu.pc) {
                Err(e) => final(self)@ == old(self)@ && r == Err::<u64, EmulationError>(e),
                Ok(i) => final(self)@.machine == execute_spec(old(self)@.machine, i).0 && r == match execute_spec(old(self)@.machine, i).1 {
                    Ok(c) => Ok(c),
                    Err(e) => Err(with_error_pc(e, old(self)@.machine.cpu.pc)),
                },
            },
    {
        let ghost s0 = self@;
        let instr = decode_next_instruction(&self)?;
        proof {
            crate::decoding::lemma_decoded_instructions_are_executable(
                s0.machine.mem.read(s0.machine.cpu.pc),
                s0.machine.mem.read((s0.machine.cpu.pc + 1) as u16),
                s0.machine.mem.read_word((s0.machine.cpu.pc + 1) as u16),
                s0.machine.cpu.pc,
            );
        }
        let pc_before = self.cpu.read_program_counter();
        match self.execute_instruction(instr) {
            Ok(c) => Ok(c),
            Err(e) => {
                // some errors that happen for example in memory access
                // can't know the instruction that called them
                // so we attach that info here
                let mut e = e;
                if e.pc.is_none() {
                    e.pc = Some(pc_before);
                }
                Err(e)
            },
        }
    }

    /// Runs the console for one instruction (or 4 cycles when halted), and
    /// returns the cycles elapsed.
    pub fn step(&mut self) -> (r: Result<u64, EmulationError>)
        requires
            old(self)@.wf(),
            step_defined(old(self)@),
        ensures
            final(self)@.wf(),
            (final(self)@, r) == step_spec(old(self)@),
    {
        let cycles_elapsed;
        if self.halted {
            // FIXME : handle this better
            if self.memory.interrupt_pending_and_enabled() {
                self.halted = false;
                self.handle_interrupts()?;
            }
            cycles_elapsed = 4;
        } else {
            cycles_elapsed = self.run_next_instruction()?;
        }
        self.finish_step(cycles_elapsed)
    }
}


/// The low nibble of the joypad register for the buttons held down (a bit is
/// 0 when its button is pressed); with buttons selected the bits are right,
/// left, up, down, with the direction pad selected they are a, b, select, start.
// https://gbdev.io/pandocs/Joypad_Input.html
pub open spec fn joypad_bits(buttons: bool, dpad: bool, input: crate::input::GBInputState) -> u8 {
    let b0 = (buttons && input.right) || (dpad && input.a);
    let b1 = (buttons && input.left) || (dpad && input.b);
    let b2 = (buttons && input.up) || (dpad && input.select);
    let b3 = (buttons && input.down) || (dpad && input.start);
    (15 - (if b0 { 1int } else { 0 }) - (if b1 { 2int } else { 0 }) - (if b2 { 4int } else { 0 }) - (if b3 { 8int } else { 0 })) as u8
}

/// Clears `mask` from `bits` when `cond` holds.
spec fn clear_if(bits: u8, cond: bool, mask: u8) -> u8 {
    if cond { bits & !mask } else { bits }
}

/// Clearing the bits of the pressed buttons one by one gives the joypad bits.
proof fn lemma_joypad_bits(buttons: bool, dpad: bool, input: crate::input::GBInputState)
    ensures
        clear_if(clear_if(clear_if(clear_if(clear_if(clear_if(clear_if(clear_if(0x0F,
            buttons && input.right, 1), buttons && input.left, 2), buttons && input.up, 4),
            buttons && input.down, 8), dpad && input.a, 1), dpad && input.b, 2), dpad
            && input.select, 4), dpad && input.start, 8) == joypad_bits(buttons, dpad, input),
{
    let (r, l, u, d, a, b, se, st) = (input.right, input.left, input.up, input.down, input.a, input.b, input.select, input.start);
    let x0: u8 = if (buttons && r) || (dpad && a) { 1 } else { 0 };
    let x1: u8 = if (buttons && l) || (dpad && b) { 2 } else { 0 };
    let x2: u8 = if (buttons && u) || (dpad && se) { 4 } else { 0 };
    let x3: u8 = if (buttons && d) || (dpad && st) { 8 } else { 0 };
    let c1 = if buttons && r { 0x0Fu8 & !1u8 } else { 0x0Fu8 };
    let c2 = if buttons && l { c1 & !2u8 } else { c1 };
    let c3 = if buttons && u { c2 & !4u8 } else { c2 };
    let c4 = if buttons && d { c3 & !8u8 } else { c3 };
    let c5 = if dpad && a { c4 & !1u8 } else { c4 };
    let c6 = if dpad && b { c5 & !2u8 } else { c5 };
    let c7 = if dpad && se { c6 & !4u8 } else { c6 };
    let c8 = if dpad && st { c7 & !8u8 } else { c7 };
    assert(c8 == 15 - x0 - x1 - x2 - x3) by (bit_vector)
        requires
            c1 == (if buttons && r { 0x0Fu8 & !1u8 } else { 0x0Fu8 }),
            c2 == (if buttons && l { c1 & !2u8 } else { c1 }),
            c3 == (if buttons && u { c2 & !4u8 } else { c2 }),
            c4 == (if buttons && d { c3 & !8u8 } else { c3 }),
            c5 == (if dpad && a { c4 & !1u8 } else { c4 }),
            c6 == (if dpad && b { c5 & !2u8 } else { c5 }),
            c7 == (if dpad && se { c6 & !4u8 } else { c6 }),
            c8 == (if dpad && st { c7 & !8u8 } else { c7 }),
            x0 == (if (buttons && r) || (dpad && a) { 1u8 } else { 0u8 }),
            x1 == (if (buttons && l) || (dpad && b) { 2u8 } else { 0u8 }),
            x2 == (if (buttons && u) || (dpad && se) { 4u8 } else { 0u8 }),
            x3 == (if (buttons && d) || (dpad && st) { 8u8 } else { 0u8 }),
    ;
}

impl Gameboy {
    /// Stores the buttons held down in the joypad register, and requests the
    /// joypad interrupt when one of the selected buttons is pressed.
    pub fn update_input(&mut self, input_state: &crate::input::GBInputState)
        requires
            old(self)@.wf(),
        ensures
            final(self)@.wf(),
            ({
                let mem = old(self)@.machine.mem;
                let bits = joypad_bits(!bit_of(mem.io[0x00], 5), !bit_of(mem.io[0x00], 4), *input_state);
                let io1 = mem.io.update(0x00, (mem.io[0x00] & 0xF0) | (bits & 0x0F));
                let io2 = if bits < 0x0F { io1.update(0x0F, io1[0x0F] | pow2_u8(4)) } else { io1 };
                final(self)@ == old(self)@.with_machine(old(self)@.machine.with_mem(MemState { io: io2, ..mem }))
            }),
    {
        let buttons = self.memory.input_buttons_selected();
        let dpad = self.memory.input_dpad_selected();
        let mut bits: u8 = 0x0F;
        if buttons {
            if input_state.right {
                bits = bits & !0b1;
            }
            if input_state.left {
                bits = bits & !(0b10);
            }
            if input_state.up {
                bits = bits & !(0b100);
            }
            if input_state.down {
                bits = bits & !(0b1000);
            }
        }
        if dpad {
            if input_state.a {
                bits = bits & !(1);
            }
            if input_state.b {
                bits = bits & !(0b10);
            }
            if input_state.select {
                bits = bits & !(0b100);
            }
            if input_state.start {
                bits = bits & !(0b1000);
            }
        }
        proof {
            lemma_joypad_bits(buttons, dpad, *input_state);
        }
        self.memory.update_input_lower(bits);
        if bits < 0x0F {
            self.memory.request_interrupt(4);
        }
    }
}

} // verus!

verus! {

/// Serving an interrupt and then returning from it with RETI comes back to
/// the instruction that was interrupted, with the stack pointer as it was
/// and interrupts enabled again, when the two bytes under the stack pointer
/// are plain memory; while the interrupt is served, interrupts are disabled
/// and the program counter is at the interrupt's vector.
#[verifier::spinoff_prover]
#[verifier::rlimit(100)]
pub proof fn lemma_interrupt_then_reti(m: Machine, i: u8, vector: u16, reti: Instruction)
    requires
        m.mem.wf(),
        i < 8,
        reti.op is RETI,
        m.cpu.sp >= 2,
        crate::memory::is_plain_memory((m.cpu.sp - 2) as u16),
        crate::memory::is_plain_memory((m.cpu.sp - 1) as u16),
    ensures
        push_defined(m),
        serve_interrupt(m, i, vector).1 is Ok,
        serve_interrupt(m, i, vector).0.cpu.pc == vector,
        !serve_interrupt(m, i, vector).0.cpu.ime,
        exec_defined(serve_interrupt(m, i, vector).0, reti),
        execute_spec(serve_interrupt(m, i, vector).0, reti).1 is Ok,
        execute_spec(serve_interrupt(m, i, vector).0, reti).0.cpu.pc == m.cpu.pc,
        execute_spec(serve_interrupt(m, i, vector).0, reti).0.cpu.sp == m.cpu.sp,
        execute_spec(serve_interrupt(m, i, vector).0, reti).0.cpu.ime,
{
    reveal(crate::semantics::flow_spec);
    let m1 = Machine {
        cpu: CpuState { ime: false, ..m.cpu },
        mem: MemState { io: m.mem.io.update(0x0F, m.mem.io[0x0F] & !pow2_u8(i)), ..m.mem },
        ..m
    };
    let sp = (m.cpu.sp - 2) as u16;
    assert(crate::cpu::offset_u16(m.cpu.sp, -2i8) == sp);
    assert(m1.mem.wf());
    crate::memory::lemma_word_read_after_write(m1.mem, sp, m.cpu.pc);
    let m2 = serve_interrupt(m, i, vector).0;
    assert(m2.mem == m1.mem.write_word_outcome(sp, m.cpu.pc).0);
    assert(m2.cpu.sp == sp);
    assert(crate::cpu::offset_u16(sp, 2i8) == m.cpu.sp);
}

} // verus!

verus! {

/// Drawing screen line LY changes the screen only on that line (nothing at
/// all past the last line), and an object partly outside the screen is cut
/// at its edges.
pub proof fn lemma_line_drawing_stays_on_its_line(s: GameboyState)
    requires
        s.wf(),
    ensures
        draw_line_spec(s).framebuffer.len() == s.framebuffer.len(),
        s.machine.mem.io[0x44] >= 144 ==> draw_line_spec(s).framebuffer == s.framebuffer,
        forall|j: int|
            0 <= j < s.framebuffer.len() && !(s.machine.mem.io[0x44] * 640 <= j < s.machine.mem.io[0x44]
                * 640 + 640) ==> #[trigger] draw_line_spec(s).framebuffer[j] == s.framebuffer[j],
{
    let mem = s.machine.mem;
    let line = mem.io[0x44] as int;
    if line < 144 && bit_of(mem.io[0x40], 7) {
        let atlas = if line == 0 { crate::ppu::colored_atlas(s.tile_atlas, mem) } else { s.tile_atlas };
        let tilemap = if line == 0 { crate::ppu::colored_tilemap(mem) } else { s.tilemap };
        let fb = crate::ppu::bg_line(s.framebuffer, tilemap, line, mem.io[0x43] as int, mem.io[0x42] as int);
        crate::ppu::lemma_objects_stay_on_their_line(fb, atlas, mem, line, 40);
        assert forall|j: int|
            0 <= j < s.framebuffer.len() && !(line * 640 <= j < line * 640 + 640) implies #[trigger] draw_line_spec(
            s,
        ).framebuffer[j] == s.framebuffer[j] by {
            assert(fb[j] == s.framebuffer[j]);
        }
    }
}

} // verus!

verus! {

/// What a step returns: a halted processor with no interrupt both requested
/// and enabled waits 4 cycles with its program counter unchanged; otherwise
/// an instruction that cannot be decoded gives its decoding error (which
/// names the program counter) and changes nothing; an instruction that fails
/// gives its error with the program counter of the instruction unless the
/// error already names one; and a step that goes through returns the
/// taken-branch cycle count of a conditional branch whose condition holds,
/// and the instruction's cycle count otherwise.
pub proof fn lemma_step_outcomes(s: GameboyState)
    ensures
        (s.machine.halted && s.machine.mem.ie & s.machine.mem.io[0x0F] == 0) ==> step_spec(s).1 == Ok::<
            u64,
            EmulationError,
        >(4) && step_spec(s).0.machine.cpu.pc == s.machine.cpu.pc,
        !s.machine.halted ==> match decode_at(s.machine.mem, s.machine.cpu.pc) {
            Err(e) => step_spec(s) == (s, Err::<u64, EmulationError>(e)) && e.pc == Some(s.machine.cpu.pc),
            Ok(i) => (crate::semantics::executable(i) ==> match execute_spec(s.machine, i).1 {
                Err(e) => step_spec(s).1 == Err::<u64, EmulationError>(
                    if e.pc is None {
                        EmulationError { pc: Some(s.machine.cpu.pc), ..e }
                    } else {
                        e
                    },
                ),
                Ok(_) => step_spec(s).1 is Ok ==> step_spec(s).1 == Ok::<u64, EmulationError>(
                    if crate::semantics::branch_taken(s.machine, i) {
                        i.branch_cycles.unwrap()
                    } else {
                        i.cycles
                    },
                ),
            }),
        },
{
    let m = s.machine;
    if !m.halted {
        let pc = m.cpu.pc;
        crate::decoding::lemma_decode_outcome(m.mem.read(pc), m.mem.read((pc + 1) as u16), m.mem.read_word((pc + 1) as u16), pc);
        match decode_at(m.mem, pc) {
            Ok(i) => {
                if crate::semantics::executable(i) {
                    crate::semantics::lemma_cycles_taken(m, i);
                }
            },
            Err(_) => {},
        }
    } else if m.mem.ie & m.mem.io[0x0F] == 0 {
        assert forall|k: u8| k < 8 implies !interrupt_pending(m, k) by {
            let ie = m.mem.ie;
            let rq = m.mem.io[0x0F];
            assert(ie & rq == 0 ==> !(((ie >> k) & 1 == 1) && ((rq >> k) & 1 == 1))) by (bit_vector)
                requires
                    k < 8,
            ;
        }
        assert(!interrupt_pending(m, 0) && !interrupt_pending(m, 2));
    }
}

} // verus!

verus! {

/// Serving interrupts: with interrupts enabled, a requested and enabled
/// V-blank interrupt (bit 0) is served first and jumps to 0x0040; otherwise a
/// requested and enabled timer interrupt (bit 2) jumps to 0x0050. Either way
/// the program counter is pushed on the stack, the request bit is cleared and
/// interrupts are disabled (when the two bytes under the stack pointer are
/// plain memory other than the request register). With interrupts disabled,
/// or nothing served, nothing changes.
#[verifier::spinoff_prover]
#[verifier::rlimit(100)]
pub proof fn lemma_interrupt_vectors(m: Machine)
    requires
        m.mem.wf(),
        m.cpu.sp >= 2,
        crate::memory::is_plain_memory((m.cpu.sp - 2) as u16),
        crate::memory::is_plain_memory((m.cpu.sp - 1) as u16),
        (m.cpu.sp - 2) as u16 != 0xFF0F,
        (m.cpu.sp - 1) as u16 != 0xFF0F,
    ensures
        !m.cpu.ime ==> interrupts_spec(m) == (m, Ok::<(), EmulationError>(())),
        ({
            let ie = m.mem.ie;
            let rq = m.mem.io[0x0F];
            let (m1, r) = interrupts_spec(m);
            let vblank = (ie & 1) == 1 && (rq & 1) == 1;
            let timer = (ie & 4) == 4 && (rq & 4) == 4;
            &&& (m.cpu.ime && vblank) ==> {
                &&& r is Ok
                &&& m1.cpu.pc == 0x0040
                &&& !m1.cpu.ime
                &&& m1.cpu.sp == m.cpu.sp - 2
                &&& m1.mem.read_word((m.cpu.sp - 2) as u16) == m.cpu.pc
                &&& m1.mem.io[0x0F] & 1 == 0
            }
            &&& (m.cpu.ime && !vblank && timer) ==> {
                &&& r is Ok
                &&& m1.cpu.pc == 0x0050
                &&& !m1.cpu.ime
                &&& m1.cpu.sp == m.cpu.sp - 2
                &&& m1.mem.read_word((m.cpu.sp - 2) as u16) == m.cpu.pc
                &&& m1.mem.io[0x0F] & 4 == 0
            }
        }),
{
    let ie = m.mem.ie;
    let rq = m.mem.io[0x0F];
    crate::cpu::lemma_byte_bits(ie, 0);
    crate::cpu::lemma_byte_bits(rq, 0);
    let sp = (m.cpu.sp - 2) as u16;
    assert(crate::cpu::offset_u16(m.cpu.sp, -2i8) == sp);
    if m.cpu.ime {
        let i: u8 = if bit_of(ie, 0) && bit_of(rq, 0) { 0 } else { 2 };
        let m1 = Machine {
            cpu: CpuState { ime: false, ..m.cpu },
            mem: MemState { io: m.mem.io.update(0x0F, m.mem.io[0x0F] & !pow2_u8(i)), ..m.mem },
            ..m
        };
        assert(m1.mem.wf());
        crate::memory::lemma_word_read_after_write(m1.mem, sp, m.cpu.pc);
        let lo = crate::cpu::low_byte(m.cpu.pc);
        let hi = crate::cpu::high_byte(m.cpu.pc);
        crate::memory::lemma_write_preserves_other_reads(m1.mem, sp, lo, 0xFF0F);
        crate::memory::lemma_write_preserves_other_reads(m1.mem.write(sp, lo), (sp + 1) as u16, hi, 0xFF0F);
        assert(m1.mem.read(0xFF0F) == m1.mem.io[0x0F]);
    }
}

} // verus!

verus! {

/// The main timer between two instructions: when TAC (0xFF07) has bit 2 set,
/// TIMA (0xFF05) counts one every 1024, 16, 64 or 256 cycles for the clock
/// selects 0, 1, 2 and 3 of TAC's low bits, and the cycle count restarts from
/// 0; on overflow TIMA is reloaded from TMA (0xFF06) and the timer interrupt
/// (bit 2 of 0xFF0F) is requested. Otherwise TIMA and its cycle count stay.
#[verifier::spinoff_prover]
#[verifier::rlimit(100)]
pub proof fn lemma_tima_counting(s: GameboyState)
    requires
        s.wf(),
    ensures
        ({
            let io = s.machine.mem.io;
            let tac = io[0x07];
            let period: u64 = if tac & 3 == 0 {
                1024
            } else if tac & 3 == 1 {
                16
            } else if tac & 3 == 2 {
                64
            } else {
                256
            };
            let counts = (tac & 4) == 4 && s.tima_cycles >= period;
            let s1 = misc_spec(s);
            &&& counts ==> s1.tima_cycles == 0
            &&& (counts && io[0x05] < 0xFF) ==> s1.machine.mem.io[0x05] == io[0x05] + 1
            &&& (counts && io[0x05] == 0xFF) ==> s1.machine.mem.io[0x05] == io[0x06] && s1.machine.mem.io[0x0F] & 4 == 4
            &&& !counts ==> s1.tima_cycles == s.tima_cycles && s1.machine.mem.io[0x05] == io[0x05]
        }),
{
    let io = s.machine.mem.io;
    let tac = io[0x07];
    crate::cpu::lemma_byte_bits(tac, 0);
    let s3 = timers_spec(s);
    crate::cpu::lemma_byte_bits(io[0x0F], 0);
    let s4 = if s3.ly_cycles >= 80 + 172 + 204 { next_line_spec(s3) } else { s3 };
    assert(s4.tima_cycles == s3.tima_cycles);
    assert(s4.machine.mem.io[0x05] == s3.machine.mem.io[0x05]);
    assert(s4.machine.mem.io[0x0F] & 4 == s3.machine.mem.io[0x0F] & 4 || s4.machine.mem.io[0x0F] == (
    s3.machine.mem.io[0x0F] | pow2_u8(0)));
    let y = s3.machine.mem.io[0x0F];
    crate::cpu::lemma_byte_bits(y, 0);
}

} // verus!

verus! {

/// The divider and the screen line between two instructions: DIV (0xFF04)
/// counts one every 256 cycles; while the screen is on (bit 7 of LCDC,
/// 0xFF40), LY (0xFF44) moves to the next of the 154 lines every 456 cycles
/// and the V-blank interrupt (bit 0 of 0xFF0F) is requested on reaching line
/// 144; while it is off, the line's cycle count stays at 0; and bit 2 of STAT
/// (0xFF41) tells whether LY equals LYC (0xFF45).
#[verifier::spinoff_prover]
#[verifier::rlimit(100)]
pub proof fn lemma_div_and_lines(s: GameboyState)
    requires
        s.wf(),
    ensures
        ({
            let io = s.machine.mem.io;
            let s1 = misc_spec(s);
            let io1 = s1.machine.mem.io;
            let on = io[0x40] & 0x80 == 0x80;
            &&& s.div_cycles >= 256 ==> s1.div_cycles == s.div_cycles - 256 && io1[0x04] == io[0x04].wrapping_add(1)
            &&& s.div_cycles < 256 ==> s1.div_cycles == s.div_cycles && io1[0x04] == io[0x04]
            &&& !on ==> s1.ly_cycles == 0 && io1[0x44] == io[0x44]
            &&& (on && s.ly_cycles >= 456) ==> s1.ly_cycles == s.ly_cycles - 456 && io1[0x44] == (io[0x44] + 1) % 154
                && (io1[0x44] == 144 ==> io1[0x0F] & 1 == 1)
            &&& (on && s.ly_cycles < 456) ==> s1.ly_cycles == s.ly_cycles && io1[0x44] == io[0x44]
            &&& (io1[0x41] & 4 == 4) == (io1[0x44] == io1[0x45])
        }),
{
    let io = s.machine.mem.io;
    let lcdc = io[0x40];
    crate::cpu::lemma_byte_bits(lcdc, 0);
    let s3 = timers_spec(s);
    assert(s3.machine.mem.io[0x40] == io[0x40]);
    assert(s3.machine.mem.io[0x44] == io[0x44]);
    assert(s3.machine.mem.io[0x45] == io[0x45]);
    let x = s3.machine.mem.io[0x0F];
    crate::cpu::lemma_byte_bits(x, 0);
    let s1 = misc_spec(s);
    let stat = s1.machine.mem.io[0x41];
    let y = (if s3.ly_cycles >= 456 { next_line_spec(s3) } else { s3 }).machine.mem.io[0x41];
    crate::cpu::lemma_byte_bits(y, 0);
}

} // verus!
