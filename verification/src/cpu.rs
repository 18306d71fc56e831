use vstd::prelude::*;

use crate::decoding::Operand;

verus! {

/// The register file of the console's processor.
pub struct CPU {
    // 8 & 16 bits registers
    a: u8,
    f: u8,  // flags register
    b: u8,  // BC
    c: u8,
    d: u8,  // DE
    e: u8,
    h: u8,  // HL
    l: u8,
    sp: u16,  // stack pointer
    pc: u16,  // program counter
    ime: bool,  // interrupt master enable
}

/// The abstract value of the register file.
pub struct CpuState {
    pub a: u8,
    pub f: u8,
    pub b: u8,
    pub c: u8,
    pub d: u8,
    pub e: u8,
    pub h: u8,
    pub l: u8,
    pub sp: u16,
    pub pc: u16,
    pub ime: bool,
}

impl View for CPU {
    type V = CpuState;

    closed spec fn view(&self) -> CpuState {
        CpuState {
            a: self.a,
            f: self.f,
            b: self.b,
            c: self.c,
            d: self.d,
            e: self.e,
            h: self.h,
            l: self.l,
            sp: self.sp,
            pc: self.pc,
            ime: self.ime,
        }
    }
}

/// Bit `i` of byte `x`.
pub open spec fn bit_of(x: u8, i: u8) -> bool {
    (x >> i) & 1 == 1
}

/// The 16-bit value whose low byte is `lo` and high byte is `hi`.
pub open spec fn word_of(lo: u8, hi: u8) -> u16 {
    (lo as int + 256 * hi as int) as u16
}

/// The low byte of a 16-bit value.
pub open spec fn low_byte(w: u16) -> u8 {
    (w % 256) as u8
}

/// The high byte of a 16-bit value.
pub open spec fn high_byte(w: u16) -> u8 {
    (w / 256) as u8
}

/// The byte with only bit `bit` set.
pub open spec fn pow2_u8(bit: u8) -> u8 {
    (1u8 << bit) as u8
}

/// A 16-bit value moved by a signed offset, modulo 2^16.
pub open spec fn offset_u16(x: u16, offset: i8) -> u16 {
    ((x as int + offset as int) % 65536) as u16
}

/// Whether a 16-bit register operand can be read or written.
pub open spec fn is_r16(o: Operand) -> bool {
    o is R16_BC || o is R16_DE || o is R16_HL || o is R16_HLD || o is R16_HLI || o is R16_AF
        || o is R16_SP
}

impl CpuState {
    // flags register :
    // 7 | 6 | 5 | 4 | 3 | 2 | 1 | 0 (bit n°)
    // Z | N | H | C | 0 | 0 | 0 | 0 (flag)
    pub open spec fn z(self) -> bool {
        bit_of(self.f, 7)
    }

    pub open spec fn n(self) -> bool {
        bit_of(self.f, 6)
    }

    pub open spec fn hf(self) -> bool {
        bit_of(self.f, 5)
    }

    pub open spec fn cf(self) -> bool {
        bit_of(self.f, 4)
    }

    pub open spec fn with_f(self, f: u8) -> CpuState {
        CpuState { f, ..self }
    }

    pub open spec fn with_z(self, v: bool) -> CpuState {
        self.with_f(if v { self.f | 0x80 } else { self.f & 0x7F })
    }

    pub open spec fn with_n(self, v: bool) -> CpuState {
        self.with_f(if v { self.f | 0x40 } else { self.f & 0xBF })
    }

    pub open spec fn with_h(self, v: bool) -> CpuState {
        self.with_f(if v { self.f | 0x20 } else { self.f & 0xDF })
    }

    pub open spec fn with_c(self, v: bool) -> CpuState {
        self.with_f(if v { self.f | 0x10 } else { self.f & 0xEF })
    }

    /// Sets the four flags at once, in the order Z, N, H, C.
    pub open spec fn with_znhc(self, z: bool, n: bool, h: bool, c: bool) -> CpuState {
        self.with_z(z).with_n(n).with_h(h).with_c(c)
    }

    /// The value of an 8-bit register.
    pub open spec fn r8(self, r: Operand) -> u8 {
        match r {
            Operand::R8_A => self.a,
            Operand::R8_B => self.b,
            Operand::R8_C => self.c,
            Operand::R8_D => self.d,
            Operand::R8_E => self.e,
            Operand::R8_H => self.h,
            Operand::R8_L => self.l,
            _ => 0,
        }
    }

    pub open spec fn with_r8(self, r: Operand, v: u8) -> CpuState {
        match r {
            Operand::R8_A => CpuState { a: v, ..self },
            Operand::R8_B => CpuState { b: v, ..self },
            Operand::R8_C => CpuState { c: v, ..self },
            Operand::R8_D => CpuState { d: v, ..self },
            Operand::R8_E => CpuState { e: v, ..self },
            Operand::R8_H => CpuState { h: v, ..self },
            Operand::R8_L => CpuState { l: v, ..self },
            _ => self,
        }
    }

    /// The value of a 16-bit register: B, D and H are the low bytes of BC, DE
    /// and HL (the first register of these pairs is their low byte), while AF
    /// holds A as its high byte and F as its low byte.
    pub open spec fn r16(self, r: Operand) -> u16 {
        match r {
            Operand::R16_BC => word_of(self.b, self.c),
            Operand::R16_DE => word_of(self.d, self.e),
            Operand::R16_HL | Operand::R16_HLD | Operand::R16_HLI => word_of(self.h, self.l),
            Operand::R16_AF => word_of(self.f, self.a),
            Operand::R16_SP => self.sp,
            _ => 0,
        }
    }

    pub open spec fn with_r16(self, r: Operand, v: u16) -> CpuState {
        match r {
            Operand::R16_BC => CpuState { b: low_byte(v), c: high_byte(v), ..self },
            Operand::R16_DE => CpuState { d: low_byte(v), e: high_byte(v), ..self },
            Operand::R16_HL | Operand::R16_HLD | Operand::R16_HLI => CpuState {
                h: low_byte(v),
                l: high_byte(v),
                ..self
            },
            Operand::R16_AF => CpuState { a: high_byte(v), f: low_byte(v), ..self },
            Operand::R16_SP => CpuState { sp: v, ..self },
            _ => self,
        }
    }

    pub open spec fn hl(self) -> u16 {
        word_of(self.h, self.l)
    }

    /// The truth of a condition code.
    pub open spec fn cc(self, cc: Operand) -> bool {
        match cc {
            Operand::CC_NZ => !self.z(),
            Operand::CC_Z => self.z(),
            Operand::CC_NC => !self.cf(),
            Operand::CC_C => self.cf(),
            _ => false,
        }
    }
}

/// Writing one flag sets it and leaves the other three as they were.
pub broadcast proof fn lemma_flag_writes(s: CpuState, v: bool)
    ensures
        #[trigger] s.with_z(v).z() == v,
        s.with_z(v).n() == s.n(),
        s.with_z(v).hf() == s.hf(),
        s.with_z(v).cf() == s.cf(),
        #[trigger] s.with_n(v).n() == v,
        s.with_n(v).z() == s.z(),
        s.with_n(v).hf() == s.hf(),
        s.with_n(v).cf() == s.cf(),
        #[trigger] s.with_h(v).hf() == v,
        s.with_h(v).z() == s.z(),
        s.with_h(v).n() == s.n(),
        s.with_h(v).cf() == s.cf(),
        #[trigger] s.with_c(v).cf() == v,
        s.with_c(v).z() == s.z(),
        s.with_c(v).n() == s.n(),
        s.with_c(v).hf() == s.hf(),
{
    lemma_flag_bits(s.f);
}

/// How setting and clearing each of bits 7 to 4 of a byte changes its bits 7 to 4.
proof fn lemma_flag_bits(f: u8)
    by (bit_vector)
    ensures
        ((f | 0x80) >> 7u8) & 1 == 1 && ((f & 0x7F) >> 7u8) & 1 == 0,
        ((f | 0x80) >> 6u8) & 1 == (f >> 6u8) & 1 && ((f & 0x7F) >> 6u8) & 1 == (f >> 6u8) & 1,
        ((f | 0x80) >> 5u8) & 1 == (f >> 5u8) & 1 && ((f & 0x7F) >> 5u8) & 1 == (f >> 5u8) & 1,
        ((f | 0x80) >> 4u8) & 1 == (f >> 4u8) & 1 && ((f & 0x7F) >> 4u8) & 1 == (f >> 4u8) & 1,
        ((f | 0x40) >> 6u8) & 1 == 1 && ((f & 0xBF) >> 6u8) & 1 == 0,
        ((f | 0x40) >> 7u8) & 1 == (f >> 7u8) & 1 && ((f & 0xBF) >> 7u8) & 1 == (f >> 7u8) & 1,
        ((f | 0x40) >> 5u8) & 1 == (f >> 5u8) & 1 && ((f & 0xBF) >> 5u8) & 1 == (f >> 5u8) & 1,
        ((f | 0x40) >> 4u8) & 1 == (f >> 4u8) & 1 && ((f & 0xBF) >> 4u8) & 1 == (f >> 4u8) & 1,
        ((f | 0x20) >> 5u8) & 1 == 1 && ((f & 0xDF) >> 5u8) & 1 == 0,
        ((f | 0x20) >> 7u8) & 1 == (f >> 7u8) & 1 && ((f & 0xDF) >> 7u8) & 1 == (f >> 7u8) & 1,
        ((f | 0x20) >> 6u8) & 1 == (f >> 6u8) & 1 && ((f & 0xDF) >> 6u8) & 1 == (f >> 6u8) & 1,
        ((f | 0x20) >> 4u8) & 1 == (f >> 4u8) & 1 && ((f & 0xDF) >> 4u8) & 1 == (f >> 4u8) & 1,
        ((f | 0x10) >> 4u8) & 1 == 1 && ((f & 0xEF) >> 4u8) & 1 == 0,
        ((f | 0x10) >> 7u8) & 1 == (f >> 7u8) & 1 && ((f & 0xEF) >> 7u8) & 1 == (f >> 7u8) & 1,
        ((f | 0x10) >> 6u8) & 1 == (f >> 6u8) & 1 && ((f & 0xEF) >> 6u8) & 1 == (f >> 6u8) & 1,
        ((f | 0x10) >> 5u8) & 1 == (f >> 5u8) & 1 && ((f & 0xEF) >> 5u8) & 1 == (f >> 5u8) & 1,
{
}

impl CPU {
    /// The registers after power on: all zero, interrupts disabled.
    pub open spec fn blank_state() -> CpuState {
        CpuState { a: 0, f: 0, b: 0, c: 0, d: 0, e: 0, h: 0, l: 0, sp: 0, pc: 0, ime: false }
    }

    // constructor
    pub fn blank() -> (cpu: CPU)
        ensures
            cpu@ == (CpuState {
                a: 0,
                f: 0,
                b: 0,
                c: 0,
                d: 0,
                e: 0,
                h: 0,
                l: 0,
                sp: 0,
                pc: 0,
                ime: false,
            }),
    {
        CPU { a: 0, f: 0, b: 0, c: 0, d: 0, e: 0, h: 0, l: 0, sp: 0, pc: 0, ime: false }
    }

    // accessors
    pub fn read_stack_pointer(&self) -> (sp: u16)
        ensures
            sp == self@.sp,
    {
        self.sp
    }

    /// Moves the stack pointer by a signed offset, wrapping around.
    pub fn offset_stack_pointer(&mut self, offset: i8)
        ensures
            final(self)@ == (CpuState { sp: offset_u16(old(self)@.sp, offset), ..old(self)@ }),
    {
        if offset > 0 {
            self.sp = self.sp.wrapping_add(offset as u16);
        } else {
            self.sp = self.sp.wrapping_sub((-(offset as i16)) as u16);
        }
    }

    // functions to access the registers using an instruction operand
    pub fn read_r8(&self, r8: &Operand) -> (v: u8)
        requires
            crate::decoding::is_r8(*r8),
        ensures
            v == self@.r8(*r8),
    {
        match r8 {
            Operand::R8_A => self.a,
            Operand::R8_B => self.b,
            Operand::R8_C => self.c,
            Operand::R8_D => self.d,
            Operand::R8_E => self.e,
            Operand::R8_H => self.h,
            _ => self.l,
        }
    }

    pub fn write_r8(&mut self, r8: &Operand, value: u8)
        requires
            crate::decoding::is_r8(*r8),
        ensures
            final(self)@ == old(self)@.with_r8(*r8, value),
    {
        match r8 {
            Operand::R8_A => {
                self.a = value;
            },
            Operand::R8_B => {
                self.b = value;
            },
            Operand::R8_C => {
                self.c = value;
            },
            Operand::R8_D => {
                self.d = value;
            },
            Operand::R8_E => {
                self.e = value;
            },
            Operand::R8_H => {
                self.h = value;
            },
            _ => {
                self.l = value;
            },
        }
    }

    pub fn read_a_register(&self) -> (v: u8)
        ensures
            v == self@.a,
    {
        self.a
    }

    pub fn write_a_register(&mut self, value: u8)
        ensures
            final(self)@ == (CpuState { a: value, ..old(self)@ }),
    {
        self.a = value;
    }

    pub fn read_r16(&self, r16: &Operand) -> (v: u16)
        requires
            is_r16(*r16),
        ensures
            v == self@.r16(*r16),
    {
        match r16 {
            Operand::R16_BC => self.b as u16 + 256 * (self.c as u16),
            Operand::R16_DE => self.d as u16 + 256 * (self.e as u16),
            Operand::R16_HL | Operand::R16_HLD | Operand::R16_HLI => self.h as u16 + 256 * (
            self.l as u16),
            Operand::R16_AF => self.f as u16 + 256 * (self.a as u16),
            _ => self.sp,
        }
    }

    pub fn write_r16(&mut self, r16: &Operand, value: u16)
        requires
            is_r16(*r16),
        ensures
            final(self)@ == old(self)@.with_r16(*r16, value),
    {
        let lo = (value % 256) as u8;
        let hi = (value / 256) as u8;
        match r16 {
            Operand::R16_BC => {
                self.b = lo;
                self.c = hi;
            },
            Operand::R16_DE => {
                self.d = lo;
                self.e = hi;
            },
            Operand::R16_HL | Operand::R16_HLD | Operand::R16_HLI => {
                self.h = lo;
                self.l = hi;
            },
            Operand::R16_AF => {
                self.a = hi;
                self.f = lo;
            },
            _ => {
                self.sp = value;
            },
        }
    }

    pub fn read_hl_register(&self) -> (v: u16)
        ensures
            v == self@.hl(),
    {
        self.h as u16 + 256 * (self.l as u16)
    }

    pub fn write_hl_register(&mut self, value: u16)
        ensures
            final(self)@ == old(self)@.with_r16(Operand::R16_HL, value),
    {
        self.h = (value % 256) as u8;
        self.l = (value / 256) as u8;
    }

    pub fn read_program_counter(&self) -> (pc: u16)
        ensures
            pc == self@.pc,
    {
        self.pc
    }

    pub fn write_program_counter(&mut self, value: u16)
        ensures
            final(self)@ == (CpuState { pc: value, ..old(self)@ }),
    {
        self.pc = value;
    }

    pub fn increment_program_counter(&mut self, increment: u16)
        ensures
            final(self)@ == (CpuState { pc: old(self)@.pc.wrapping_add(increment), ..old(self)@ }),
    {
        self.pc = self.pc.wrapping_add(increment);
    }

    /// Moves the program counter by a signed offset, wrapping around.
    pub fn offset_program_counter(&mut self, offset: i8)
        ensures
            final(self)@ == (CpuState { pc: offset_u16(old(self)@.pc, offset), ..old(self)@ }),
    {
        if offset > 0 {
            self.pc = self.pc.wrapping_add(offset as u16);
        } else {
            self.pc = self.pc.wrapping_sub((-(offset as i16)) as u16);
        }
    }

    pub fn read_z_flag(&self) -> (v: bool)
        ensures
            v == self@.z(),
    {
        ((self.f >> 7) & 1) == 1
    }

    pub fn write_z_flag(&mut self, value: bool)
        ensures
            final(self)@ == old(self)@.with_z(value),
    {
        if value {
            self.f = self.f | 0b_1000_0000;
        } else {
            self.f = self.f & 0b_0111_1111;
        }
    }

    pub fn read_n_flag(&self) -> (v: bool)
        ensures
            v == self@.n(),
    {
        ((self.f >> 6) & 1) == 1
    }

    pub fn write_n_flag(&mut self, value: bool)
        ensures
            final(self)@ == old(self)@.with_n(value),
    {
        if value {
            self.f = self.f | 0b_0100_0000;
        } else {
            self.f = self.f & 0b_1011_1111;
        }
    }

    pub fn read_h_flag(&self) -> (v: bool)
        ensures
            v == self@.hf(),
    {
        ((self.f >> 5) & 1) == 1
    }

    pub fn write_h_flag(&mut self, value: bool)
        ensures
            final(self)@ == old(self)@.with_h(value),
    {
        if value {
            self.f = self.f | 0b_0010_0000;
        } else {
            self.f = self.f & 0b_1101_1111;
        }
    }

    pub fn read_c_flag(&self) -> (v: bool)
        ensures
            v == self@.cf(),
    {
        ((self.f >> 4) & 1) == 1
    }

    pub fn write_c_flag(&mut self, value: bool)
        ensures
            final(self)@ == old(self)@.with_c(value),
    {
        if value {
            self.f = self.f | 0b_0001_0000;
        } else {
            self.f = self.f & 0b_1110_1111;
        }
    }

    // access flags using a condition operand
    pub fn get_cc(&self, cc: &Operand) -> (v: bool)
        requires
            crate::decoding::is_cc(*cc),
        ensures
            v == self@.cc(*cc),
    {
        match cc {
            Operand::CC_NZ => !self.read_z_flag(),
            Operand::CC_Z => self.read_z_flag(),
            Operand::CC_NC => !self.read_c_flag(),
            _ => self.read_c_flag(),
        }
    }

    // interrupt master enable
    pub fn interrupts_enabled(&self) -> (v: bool)
        ensures
            v == self@.ime,
    {
        self.ime
    }

    pub fn enable_interrupts(&mut self)
        ensures
            final(self)@ == (CpuState { ime: true, ..old(self)@ }),
    {
        self.ime = true;
    }

    pub fn disable_interrupts(&mut self)
        ensures
            final(self)@ == (CpuState { ime: false, ..old(self)@ }),
    {
        self.ime = false;
    }
}


/// Facts about the bit operations the processor uses, as arithmetic.
pub proof fn lemma_byte_ops(v: u8, c: u8)
    requires
        c <= 1,
    ensures
        v & 0xF == v % 16,
        (v >> 7u8) & 1 == 1 <==> v >= 128,
        (v >> 7u8) & 1 == v / 128,
        v & 1 == v % 2,
        (v & 1 == 1) <==> v % 2 == 1,
        v >> 1u8 == v / 2,
        v >> 7u8 == v / 128,
        v << 1u8 == (v * 2) % 256,
        (v << 1u8) | c == (v * 2) % 256 + c,
        (v >> 1u8) | (c << 7u8) == v / 2 + 128 * c,
        (v << 4u8) | (v >> 4u8) == (v % 16) * 16 + v / 16,
        !v == 255 - v,
{
    lemma_byte_bits(v, c);
}

/// A bit of a byte, read with a shift and a mask, is 0 or 1.
pub proof fn lemma_bit_is_0_or_1(v: u8, bit: u8)
    requires
        bit < 8,
    ensures
        (v >> bit) & 1 == 0 || (v >> bit) & 1 == 1,
{
    assert((v >> bit) & 1 == 0 || (v >> bit) & 1 == 1) by (bit_vector)
        requires
            bit < 8,
    ;
}

/// The low twelve bits of a word.
pub proof fn lemma_word_low_bits(v: u16)
    ensures
        v & 0xFFF == v % 4096,
{
    assert(v & 0xFFF == v % 4096) by (bit_vector);
}

/// What is written to a register is what is read from it, and the other
/// registers keep their values: for the 8-bit registers, and for the 16-bit
/// registers and pairs.
pub proof fn lemma_register_write_read(s: CpuState, r: Operand, o: Operand, v8: u8, v16: u16)
    ensures
        crate::decoding::is_r8(r) ==> s.with_r8(r, v8).r8(r) == v8,
        crate::decoding::is_r8(r) && crate::decoding::is_r8(o) && r != o ==> s.with_r8(r, v8).r8(o) == s.r8(o),
        crate::decoding::is_r8(r) ==> s.with_r8(r, v8).pc == s.pc && s.with_r8(r, v8).sp == s.sp && s.with_r8(r, v8).f == s.f,
        is_r16(r) ==> s.with_r16(r, v16).r16(r) == v16,
        is_r16(r) ==> s.with_r16(r, v16).pc == s.pc,
{
    lemma_word_of_bytes(v16);
}

/// A word is made back of its two bytes.
pub proof fn lemma_word_of_bytes(v: u16)
    ensures
        word_of(low_byte(v), high_byte(v)) == v,
{
}

/// Setting the four flags at once gives each its value and leaves the other
/// registers alone.
pub proof fn lemma_znhc(s: CpuState, z: bool, n: bool, h: bool, c: bool)
    ensures
        s.with_znhc(z, n, h, c).z() == z,
        s.with_znhc(z, n, h, c).n() == n,
        s.with_znhc(z, n, h, c).hf() == h,
        s.with_znhc(z, n, h, c).cf() == c,
        s.with_znhc(z, n, h, c) == (CpuState { f: s.with_znhc(z, n, h, c).f, ..s }),
{
    let s1 = s.with_z(z);
    let s2 = s1.with_n(n);
    let s3 = s2.with_h(h);
    lemma_flag_writes(s, z);
    lemma_flag_writes(s1, n);
    lemma_flag_writes(s2, h);
    lemma_flag_writes(s3, c);
}

/// Setting Z, N and H gives each its value, keeps C, and leaves the other
/// registers alone.
pub proof fn lemma_znh(s: CpuState, z: bool, n: bool, h: bool)
    ensures
        s.with_z(z).with_n(n).with_h(h).z() == z,
        s.with_z(z).with_n(n).with_h(h).n() == n,
        s.with_z(z).with_n(n).with_h(h).hf() == h,
        s.with_z(z).with_n(n).with_h(h).cf() == s.cf(),
        s.with_z(z).with_n(n).with_h(h) == (CpuState { f: s.with_z(z).with_n(n).with_h(h).f, ..s }),
{
    let s1 = s.with_z(z);
    let s2 = s1.with_n(n);
    lemma_flag_writes(s, z);
    lemma_flag_writes(s1, n);
    lemma_flag_writes(s2, h);
}

/// Facts about the bit operations on a byte, as arithmetic and as masks.
pub proof fn lemma_byte_bits(v: u8, c: u8)
    requires
        c <= 1,
    ensures
        v & 0xF == v % 16,
        (v >> 7u8) & 1 == 1 <==> v >= 128,
        (v >> 7u8) & 1 == v / 128,
        v & 1 == v % 2,
        (v & 1 == 1) <==> v % 2 == 1,
        v >> 1u8 == v / 2,
        v >> 7u8 == v / 128,
        v << 1u8 == (v * 2) % 256,
        (v << 1u8) | c == (v * 2) % 256 + c,
        (v >> 1u8) | (c << 7u8) == v / 2 + 128 * c,
        (v << 4u8) | (v >> 4u8) == (v % 16) * 16 + v / 16,
        ((v << 4u8) | (v >> 4u8) == 0) == (v == 0),
        !v == 255 - v,
        (v << 1u8) | (v >> 7u8) == (v * 2) % 256 + v / 128,
        (v >> 1u8) | (v << 7u8) == v / 2 + 128 * (v % 2),
        (v & 0x80 != 0) == (v >= 128),
        (v & 1 != 0) == (v % 2 == 1),
        v & 3 == v % 4,
        (v >> 2u8) & 3 == (v / 4) % 4,
        (v >> 4u8) & 3 == (v / 16) % 4,
        (v >> 6u8) & 3 == v / 64,
        v >> 0u8 == v,
        ((v >> 0u8) & 1 == 1) == (v & 1 == 1),
        ((v >> 2u8) & 1 == 1) == (v & 4 == 4),
        ((v >> 7u8) & 1 == 1) == (v & 0x80 == 0x80),
        (v | 1) & 1 == 1,
        (v | 4) & 4 == 4,
        (v | 1) & 4 == v & 4,
        (v & !1u8) & 1 == 0,
        (v & !4u8) & 4 == 0,
        (v & 0xFB) & 4 == 0,
        (1u8 << 0u8) == 1,
        (1u8 << 2u8) == 4,
{
    lemma_byte_masks(v, c);
    lemma_byte_left_shifts(v, c);
}

/// The masks, right shifts and nibble swaps of `lemma_byte_bits`.
proof fn lemma_byte_masks(v: u8, c: u8)
    by (bit_vector)
    requires
        c <= 1,
    ensures
        v & 0xF == v % 16,
        (v >> 7u8) & 1 == 1 <==> v >= 128,
        (v >> 7u8) & 1 == v / 128,
        v & 1 == v % 2,
        (v & 1 == 1) <==> v % 2 == 1,
        v >> 1u8 == v / 2,
        v >> 7u8 == v / 128,
        (v >> 1u8) | (c << 7u8) == v / 2 + 128 * c,
        (v << 4u8) | (v >> 4u8) == (v % 16) * 16 + v / 16,
        ((v << 4u8) | (v >> 4u8) == 0) == (v == 0),
        !v == 255 - v,
        (v >> 1u8) | (v << 7u8) == v / 2 + 128 * (v % 2),
        (v & 0x80 != 0) == (v >= 128),
        (v & 1 != 0) == (v % 2 == 1),
        v & 3 == v % 4,
        (v >> 2u8) & 3 == (v / 4) % 4,
        (v >> 4u8) & 3 == (v / 16) % 4,
        (v >> 6u8) & 3 == v / 64,
        v >> 0u8 == v,
        ((v >> 0u8) & 1 == 1) == (v & 1 == 1),
        ((v >> 2u8) & 1 == 1) == (v & 4 == 4),
        ((v >> 7u8) & 1 == 1) == (v & 0x80 == 0x80),
        (v | 1) & 1 == 1,
        (v | 4) & 4 == 4,
        (v | 1) & 4 == v & 4,
        (v & !1u8) & 1 == 0,
        (v & !4u8) & 4 == 0,
        (v & 0xFB) & 4 == 0,
{
}

/// The left shifts of `lemma_byte_bits`, proved apart from the rest.
proof fn lemma_byte_left_shifts(v: u8, c: u8)
    by (bit_vector)
    requires
        c <= 1,
    ensures
        v << 1u8 == (v * 2) % 256,
        (v << 1u8) | c == (v * 2) % 256 + c,
        (v << 1u8) | (v >> 7u8) == (v * 2) % 256 + v / 128,
        (1u8 << 0u8) == 1,
        (1u8 << 2u8) == 4,
{
}

} // verus!
