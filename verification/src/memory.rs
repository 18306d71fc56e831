use vstd::prelude::*;

use crate::cpu::bit_of;
use crate::error::{EmulationError, EmulationErrorType};

verus! {

// https://gbdev.io/pandocs/Memory_Map.html
/// The DMG boot ROM, mapped over 0000-00FF until it is disabled.
// https://gbdev.gg8.se/wiki/articles/Gameboy_Bootstrap_ROM
pub const BOOT_ROM: [u8; 256] = [
                0x31, 0xfe, 0xff, 0xaf, 0x21, 0xff, 0x9f, 0x32, 0xcb, 0x7c, 0x20, 0xfb, 0x21, 0x26,
                0xff, 0x0e, 0x11, 0x3e, 0x80, 0x32, 0xe2, 0x0c, 0x3e, 0xf3, 0xe2, 0x32, 0x3e, 0x77,
                0x77, 0x3e, 0xfc, 0xe0, 0x47, 0x11, 0x04, 0x01, 0x21, 0x10, 0x80, 0x1a, 0xcd, 0x95,
                0x00, 0xcd, 0x96, 0x00, 0x13, 0x7b, 0xfe, 0x34, 0x20, 0xf3, 0x11, 0xd8, 0x00, 0x06,
                0x08, 0x1a, 0x13, 0x22, 0x23, 0x05, 0x20, 0xf9, 0x3e, 0x19, 0xea, 0x10, 0x99, 0x21,
                0x2f, 0x99, 0x0e, 0x0c, 0x3d, 0x28, 0x08, 0x32, 0x0d, 0x20, 0xf9, 0x2e, 0x0f, 0x18,
                0xf3, 0x67, 0x3e, 0x64, 0x57, 0xe0, 0x42, 0x3e, 0x91, 0xe0, 0x40, 0x04, 0x1e, 0x02,
                0x0e, 0x0c, 0xf0, 0x44, 0xfe, 0x90, 0x20, 0xfa, 0x0d, 0x20, 0xf7, 0x1d, 0x20, 0xf2,
                0x0e, 0x13, 0x24, 0x7c, 0x1e, 0x83, 0xfe, 0x62, 0x28, 0x06, 0x1e, 0xc1, 0xfe, 0x64,
                0x20, 0x06, 0x7b, 0xe2, 0x0c, 0x3e, 0x87, 0xe2, 0xf0, 0x42, 0x90, 0xe0, 0x42, 0x15,
                0x20, 0xd2, 0x05, 0x20, 0x4f, 0x16, 0x20, 0x18, 0xcb, 0x4f, 0x06, 0x04, 0xc5, 0xcb,
                0x11, 0x17, 0xc1, 0xcb, 0x11, 0x17, 0x05, 0x20, 0xf5, 0x22, 0x23, 0x22, 0x23, 0xc9,
                0xce, 0xed, 0x66, 0x66, 0xcc, 0x0d, 0x00, 0x0b, 0x03, 0x73, 0x00, 0x83, 0x00, 0x0c,
                0x00, 0x0d, 0x00, 0x08, 0x11, 0x1f, 0x88, 0x89, 0x00, 0x0e, 0xdc, 0xcc, 0x6e, 0xe6,
                0xdd, 0xdd, 0xd9, 0x99, 0xbb, 0xbb, 0x67, 0x63, 0x6e, 0x0e, 0xec, 0xcc, 0xdd, 0xdc,
                0x99, 0x9f, 0xbb, 0xb9, 0x33, 0x3e, 0x3c, 0x42, 0xb9, 0xa5, 0xb9, 0xa5, 0x42, 0x3c,
                0x21, 0x04, 0x01, 0x11, 0xa8, 0x00, 0x1a, 0x13, 0xbe, 0x20, 0xfe, 0x23, 0x7d, 0xfe,
                0x34, 0x20, 0xf5, 0x06, 0x19, 0x78, 0x86, 0x23, 0x05, 0x20, 0xfb, 0x86, 0x20, 0xfe,
                0x3e, 0x01, 0xe0, 0x50,
];

/// The memory bank controller of a cartridge.
#[derive(Clone, Copy, PartialEq, Eq, Structural, Debug)]
pub enum MBC {
    NONE,
    MBC1,
    MBC2,
    MBC3,
}

/// The console's address space.
pub struct Memory {
    boot_rom: Vec<u8>,  // 0000-00FF | Boot ROM (mapped only during boot)
    fixed_rom_bank: Vec<u8>,  // 0000-3FFF | 16 KiB fixed ROM bank
    switch_rom_bank: Vec<Vec<u8>>,  // 4000-7FFF | 16 KiB switchable ROM bank
    vram: Vec<u8>,  // 8000-9FFF | 8KiB Video Ram
    ext_ram: Vec<u8>,  // A000-BFFF | 8 KiB External RAM (cartridge)
    wram: Vec<u8>,  // C000-CFFF | 4 KiB Work RAM
    switchable_wram: Vec<u8>,  // D000-DFFF | 4 KiB Work RAM
    oam: Vec<u8>,  // FE00-FE9F | Object Attribute Memory
    io_hw: Vec<u8>,  // FF00-FF7F | Memory-Mapped I/O
    hram: Vec<u8>,  // FF80-FFFE | High Ram
    ie: u8,  // FFFF      | Interrupt Enable Register (IE)
    // ---------------
    mbc: MBC,
    selected_rom_bank: u8,
}

/// The abstract value of the address space: the content of each region.
pub struct MemState {
    pub boot_rom: Seq<u8>,
    pub fixed: Seq<u8>,
    pub banks: Seq<Seq<u8>>,
    pub vram: Seq<u8>,
    pub ext_ram: Seq<u8>,
    pub wram: Seq<u8>,
    pub swram: Seq<u8>,
    pub oam: Seq<u8>,
    pub io: Seq<u8>,
    pub hram: Seq<u8>,
    pub ie: u8,
    pub mbc: MBC,
    pub selected: u8,
}

impl View for Memory {
    type V = MemState;

    closed spec fn view(&self) -> MemState {
        MemState {
            boot_rom: self.boot_rom@,
            fixed: self.fixed_rom_bank@,
            banks: self.switch_rom_bank@.map_values(|v: Vec<u8>| v@),
            vram: self.vram@,
            ext_ram: self.ext_ram@,
            wram: self.wram@,
            swram: self.switchable_wram@,
            oam: self.oam@,
            io: self.io_hw@,
            hram: self.hram@,
            ie: self.ie,
            mbc: self.mbc,
            selected: self.selected_rom_bank,
        }
    }
}

/// A sequence of `n` zero bytes.
pub open spec fn zeros(n: nat) -> Seq<u8> {
    Seq::new(n, |i: int| 0u8)
}

/// The bank number stored when `value` is written to the bank select register
/// of a cartridge with `n` switchable banks.
pub open spec fn bank_select(n: nat, value: u8) -> u8 {
    let nb = (n % 256) as u8;
    let corrected = if value == 0 { 1u8 } else { value };
    if corrected > nb { nb } else { corrected }
}

impl MemState {
    /// The sizes of the regions and the facts the registers keep: the boot
    /// ROM is the one of the console, and the bank selected is one of the
    /// switchable banks whenever there is one.
    pub open spec fn wf(self) -> bool {
        &&& self.boot_rom.len() == 0x100
        &&& self.fixed.len() == 0x4000
        &&& forall|k: int| 0 <= k < self.banks.len() ==> #[trigger] self.banks[k].len() == 0x4000
        &&& self.vram.len() == 0x2000
        &&& self.ext_ram.len() == 0x2000
        &&& self.wram.len() == 0x4000
        &&& self.swram.len() == 0x4000
        &&& self.oam.len() == 160
        &&& self.io.len() == 0x80
        &&& self.hram.len() == 0x7F
        &&& (self.mbc == MBC::NONE || self.mbc == MBC::MBC1)
        &&& self.io[0x44] < 154
        &&& self.boot_rom == BOOT_ROM@
        &&& self.mbc == MBC::NONE ==> self.banks.len() >= 1
        &&& self.banks.len() >= 1 ==> self.bank_index() < self.banks.len()
    }

    /// The index in `banks` of the bank mapped at 4000-7FFF.
    pub open spec fn bank_index(self) -> int {
        if self.mbc == MBC::MBC1 {
            (if self.selected == 0 { 1 } else { self.selected as int }) - 1
        } else {
            0
        }
    }

    /// Whether reading `addr` is defined (it is not for unmapped regions,
    /// nor for the switchable ROM region of a cartridge with no bank there).
    pub open spec fn readable(self, addr: u16) -> bool {
        if 0x4000 <= addr < 0x8000 {
            self.banks.len() >= 1
        } else {
            !(0xE000 <= addr < 0xFE00) && !(0xFEA0 <= addr < 0xFF00)
        }
    }

    /// The byte read at `addr`.
    pub open spec fn read(self, addr: u16) -> u8 {
        if addr < 0x4000 {
            if self.io[0x50] == 0 && addr <= 0xFF {
                self.boot_rom[addr as int]
            } else {
                self.fixed[addr as int]
            }
        } else if addr < 0x8000 {
            self.banks[self.bank_index()][addr - 0x4000]
        } else if addr < 0xA000 {
            self.vram[addr - 0x8000]
        } else if addr < 0xC000 {
            self.ext_ram[addr - 0xA000]
        } else if addr < 0xD000 {
            self.wram[addr - 0xC000]
        } else if 0xD000 <= addr < 0xE000 {
            self.swram[addr - 0xD000]
        } else if 0xFE00 <= addr < 0xFEA0 {
            self.oam[addr - 0xFE00]
        } else if addr == 0xFF00 {
            // the joypad register reads as "no button pressed"
            0x0F
        } else if 0xFF00 <= addr < 0xFF80 {
            self.io[addr - 0xFF00]
        } else if 0xFF80 <= addr < 0xFFFF {
            self.hram[addr - 0xFF80]
        } else {
            self.ie
        }
    }

    /// The little-endian word read at `addr` and `addr + 1`.
    pub open spec fn read_word(self, addr: u16) -> u16 {
        crate::cpu::word_of(self.read(addr), self.read((addr + 1) as u16))
    }

    /// Whether writing `addr` is defined (external RAM bank switching is not).
    pub open spec fn writable(addr: u16) -> bool {
        !(0x4000 <= addr < 0x6000)
    }

    /// Whether a write to `addr` is refused as unauthorized.
    pub open spec fn write_refused(addr: u16) -> bool {
        (0x6000 <= addr < 0x8000) || (0xE000 <= addr < 0xFE00)
    }

    /// The effect of a write to the memory-mapped register at `0xFF00 + i`.
    pub open spec fn io_write(self, i: int, value: u8) -> Seq<u8> {
        if i == 0x04 {
            // writing to the DIV register clears it
            self.io.update(0x04, 0)
        } else if 0x10 <= i < 0x40 {
            // audio registers
            self.io
        } else if i == 0x41 {
            // the lower 3 bits of LCD STAT are read-only
            self.io.update(0x41, (self.io[0x41] & 0b_0000_0111) | (value & 0b_1111_1000))
        } else if i == 0x0F || i == 0x40 || i == 0x42 || i == 0x43 || i == 0x50 || (0x05 <= i
            <= 0x07) {
            self.io.update(i, value)
        } else {
            self.io
        }
    }

    /// The state after writing `value` at `addr`.
    pub open spec fn write(self, addr: u16, value: u8) -> MemState {
        if addr < 0x2000 {
            self
        } else if addr < 0x4000 {
            MemState { selected: bank_select(self.banks.len(), value), ..self }
        } else if addr < 0x8000 {
            self
        } else if addr < 0xA000 {
            MemState { vram: self.vram.update(addr - 0x8000, value), ..self }
        } else if addr < 0xC000 {
            MemState { ext_ram: self.ext_ram.update(addr - 0xA000, value), ..self }
        } else if addr < 0xD000 {
            MemState { wram: self.wram.update(addr - 0xC000, value), ..self }
        } else if addr < 0xE000 {
            MemState { swram: self.swram.update(addr - 0xD000, value), ..self }
        } else if addr < 0xFE00 {
            self
        } else if addr < 0xFEA0 {
            MemState { oam: self.oam.update(addr - 0xFE00, value), ..self }
        } else if addr < 0xFF00 {
            self
        } else if addr < 0xFF80 {
            MemState { io: self.io_write(addr - 0xFF00, value), ..self }
        } else if addr < 0xFFFF {
            MemState { hram: self.hram.update(addr - 0xFF80, value), ..self }
        } else {
            MemState { ie: value, ..self }
        }
    }
}

/// The error returned for a write to `addr`, which nothing is mapped to.
pub open spec fn unauthorized_write(addr: u16) -> EmulationError {
    EmulationError { ty: EmulationErrorType::UnauthorizedWrite(addr), pc: None }
}

impl MemState {
    /// The state and the result after a byte write.
    pub open spec fn write_byte_outcome(self, addr: u16, value: u8) -> (MemState, Result<(), EmulationError>) {
        if MemState::write_refused(addr) {
            (self, Err(unauthorized_write(addr)))
        } else {
            (self.write(addr, value), Ok(()))
        }
    }

    /// The state and the result after a little-endian word write: the low byte
    /// is written first, and a refused write stops there.
    pub open spec fn write_word_outcome(self, addr: u16, value: u16) -> (MemState, Result<(), EmulationError>) {
        let (s1, r1) = self.write_byte_outcome(addr, crate::cpu::low_byte(value));
        if r1 is Err {
            (s1, r1)
        } else {
            s1.write_byte_outcome((addr + 1) as u16, crate::cpu::high_byte(value))
        }
    }

    /// Whether a word read at `addr` is defined.
    pub open spec fn word_readable(self, addr: u16) -> bool {
        addr < 0xFFFF && self.readable(addr) && self.readable((addr + 1) as u16)
    }

    /// Whether a word write at `addr` is defined.
    pub open spec fn word_writable(addr: u16) -> bool {
        addr < 0xFFFF && MemState::writable(addr) && MemState::writable((addr + 1) as u16)
    }
}

/// A fresh vector of `n` zero bytes.
pub fn zeroed(n: usize) -> (v: Vec<u8>)
    ensures
        v@ == zeros(n as nat),
{
    let v = vec![0u8; n];
    assert(v@ =~= zeros(n as nat));
    v
}

impl Memory {
    // constructor
    pub fn new() -> (m: Memory)
        ensures
            m@.wf(),
            m@.boot_rom == BOOT_ROM@,
            m@.fixed == zeros(0x4000),
            m@.banks == seq![zeros(0x4000)],
            m@.vram == zeros(0x2000),
            m@.ext_ram == zeros(0x2000),
            m@.wram == zeros(0x4000),
            m@.swram == zeros(0x4000),
            m@.oam == zeros(160),
            m@.io == zeros(0x80),
            m@.hram == zeros(0x7F),
            m@.ie == 0,
            m@.mbc == MBC::NONE,
            m@.selected == 1,
    {
        let mut boot_rom: Vec<u8> = Vec::new();
        let mut i: usize = 0;
        while i < 256
            invariant
                i <= 256,
                boot_rom@ == BOOT_ROM@.take(i as int),
            decreases 256 - i,
        {
            boot_rom.push(BOOT_ROM[i]);
            i = i + 1;
            assert(boot_rom@ =~= BOOT_ROM@.take(i as int));
        }
        assert(boot_rom@ =~= BOOT_ROM@);
        let mut switch_rom_bank: Vec<Vec<u8>> = Vec::new();
        switch_rom_bank.push(zeroed(0x4000));
        let m = Memory {
            boot_rom,
            fixed_rom_bank: zeroed(0x4000),
            switch_rom_bank,
            vram: zeroed(0x2000),
            ext_ram: zeroed(0x2000),
            wram: zeroed(0x4000),
            switchable_wram: zeroed(0x4000),
            oam: zeroed(0x00A0),
            io_hw: zeroed(0x80),
            hram: zeroed(0x7F),
            ie: 0x00,
            mbc: MBC::NONE,
            selected_rom_bank: 1,
        };
        assert(m@.banks =~= seq![zeros(0x4000)]);
        m
    }

    // accessors
    pub fn read_byte(&self, address: u16) -> (v: u8)
        requires
            self@.wf(),
            self@.readable(address),
        ensures
            v == self@.read(address),
    {
        if address < 0x4000 {
            // ROM / BOOT ROM
            // the bootrom stays mapped onto 0x00-0xFF until 0x01 is written to 0xFF50
            // then cartridge data is accessible
            if self.io_hw[0x50] == 0 && address <= 0xFF {
                self.boot_rom[address as usize]
            } else {
                self.fixed_rom_bank[address as usize]
            }
        } else if address < 0x8000 {
            // SECOND ROM BANK
            let index: usize = match self.mbc {
                MBC::MBC1 => {
                    // bank 0 is the fixed bank, hence the -1 here
                    let selected = if self.selected_rom_bank == 0 { 1 } else { self.selected_rom_bank };
                    selected as usize - 1
                },
                _ => 0,
            };
            proof {
                assert(self@.banks[index as int] == self.switch_rom_bank@[index as int]@);
            }
            self.switch_rom_bank[index][(address - 0x4000) as usize]
        } else if address < 0xA000 {
            // VRAM
            self.vram[(address - 0x8000) as usize]
        } else if address < 0xC000 {
            // EXTERNAL RAM
            self.ext_ram[(address - 0xA000) as usize]
        } else if address < 0xD000 {
            // WRAM
            self.wram[(address - 0xC000) as usize]
        } else if address < 0xE000 {
            // SWITCHABLE WRAM
            self.switchable_wram[(address - 0xD000) as usize]
        } else if address < 0xFEA0 {
            // OAM
            self.oam[(address - 0xFE00) as usize]
        } else if address == 0xFF00 {
            // joypad input
            0x0F
        } else if address < 0xFF80 {
            // MEMORY IO
            self.io_hw[(address - 0xFF00) as usize]
        } else if address < 0xFFFF {
            // HRAM
            self.hram[(address - 0xFF80) as usize]
        } else {
            // INTERRUPT ENABLE
            self.ie
        }
    }
}


impl Memory {
    pub fn write_byte(&mut self, address: u16, value: u8) -> (r: Result<(), EmulationError>)
        requires
            old(self)@.wf(),
            MemState::writable(address),
        ensures
            final(self)@.wf(),
            (final(self)@, r) == old(self)@.write_byte_outcome(address, value),
    {
        if address < 0x2000 {
            // writing to this rom space enables external ram
            // but for now we ignore it
        } else if address < 0x4000 {
            // writing to this rom address range selects the rom bank
            // for the MBC
            let nb_additional_banks = (self.switch_rom_bank.len() % 256) as u8;
            let mut corrected_value = value;
            if corrected_value == 0 {
                // bank 0 is mapped in a fixed manner to 0000..=4000
                // and can't be mapped twice
                corrected_value = 1;
            }
            if corrected_value > nb_additional_banks {
                // on the gameboy, this register is masked
                // so that you can't map a bank that doesn't exist
                corrected_value = nb_additional_banks;
            }
            self.selected_rom_bank = corrected_value;
        } else if address < 0x8000 {
            return Err(EmulationError { ty: EmulationErrorType::UnauthorizedWrite(address), pc: None });
        } else if address < 0xA000 {
            // VRAM
            self.vram.set((address - 0x8000) as usize, value);
        } else if address < 0xC000 {
            // EXTERNAL RAM
            self.ext_ram.set((address - 0xA000) as usize, value);
        } else if address < 0xD000 {
            // WRAM
            self.wram.set((address - 0xC000) as usize, value);
        } else if address < 0xE000 {
            // SWITCHABLE WRAM
            self.switchable_wram.set((address - 0xD000) as usize, value);
        } else if address < 0xFE00 {
            return Err(EmulationError { ty: EmulationErrorType::UnauthorizedWrite(address), pc: None });
        } else if address < 0xFEA0 {
            // OAM
            self.oam.set((address - 0xFE00) as usize, value);
        } else if address < 0xFF00 {
            // Nintendo says use of this area is prohibited.
        } else if address < 0xFF80 {
            // IO & MEMORY MAPPED HARDWARE REGISTERS
            if address == 0xFF04 {
                // writing to the DIV register clears it
                self.io_hw.set(0x04, 0x00);
            } else if 0xFF10 <= address && address < 0xFF40 {
                // audio registers, not important for now
            } else if address == 0xFF41 {
                // the lower 3 bits of LCD STAT are read-only
                // and should not be overwritten by a call to write_byte
                let stat = (self.io_hw[0x41] & 0b_0000_0111) | (value & 0b_1111_1000);
                self.io_hw.set(0x41, stat);
            } else if address == 0xFF0F  // IF
             || address == 0xFF40  // LCD CONTROL
             || address == 0xFF42 || address == 0xFF43  // SCX & SCY
             || address == 0xFF50  // DISABLES BOOT ROM
             || (0xFF05 <= address && address <= 0xFF07)  // TIMA, TMA, TAC
            {
                // those are all registers that are R/W
                // they act like normal registers / memory
                self.io_hw.set((address - 0xFF00) as usize, value);
            }
            // other registers (serial, palettes, ...) ignore writes

        } else if address < 0xFFFF {
            // HRAM
            self.hram.set((address - 0xFF80) as usize, value);
        } else {
            // INTERRUPT ENABLE
            self.ie = value;
        }
        proof {
            assert(final(self)@.banks =~= old(self)@.banks);
            assert(final(self)@.io =~= old(self)@.write(address, value).io);
        }
        Ok(())
    }

    pub fn read_word(&self, address: u16) -> (w: u16)
        requires
            self@.wf(),
            self@.word_readable(address),
        ensures
            w == self@.read_word(address),
    {
        let lo = self.read_byte(address);
        let hi = self.read_byte(address + 1);
        lo as u16 + 256 * (hi as u16)
    }

    pub fn write_word(&mut self, address: u16, value: u16) -> (r: Result<(), EmulationError>)
        requires
            old(self)@.wf(),
            MemState::word_writable(address),
        ensures
            final(self)@.wf(),
            (final(self)@, r) == old(self)@.write_word_outcome(address, value),
    {
        self.write_byte(address, (value % 256) as u8)?;
        self.write_byte(address + 1, (value / 256) as u8)?;
        Ok(())
    }

    // functions to write to the hw registers bypassing the MMU

    // the lower 3 bits of LCD STAT are read-only
    // and they should not be overwritten by a call to write_byte
    // however the cpu needs to have a way to update them
    // bits 0 & 1 are the current PPU MODE
    pub fn _update_lcd_stat_ppu_mode(&mut self, ppu_mode: u8)
        requires
            old(self)@.wf(),
            ppu_mode < 4,
        ensures
            final(self)@ == (MemState {
                io: old(self)@.io.update(0x41, (old(self)@.io[0x41] & 0b_1111_1100) | ppu_mode),
                ..old(self)@
            }),
    {
        let lcd_stat = self.io_hw[0x41];
        self.io_hw.set(0x41, (lcd_stat & 0b_1111_1100) | ppu_mode);
        proof {
            assert(final(self)@.banks =~= old(self)@.banks);
        }
    }

    // bit 2 of LCD STAT is set if LYC == LY
    pub fn update_lcd_stat_lcy_eq_ly(&mut self, lcy_eq_ly: bool)
        requires
            old(self)@.wf(),
        ensures
            final(self)@ == (MemState {
                io: old(self)@.io.update(
                    0x41,
                    if lcy_eq_ly {
                        old(self)@.io[0x41] | 0b_0000_0100
                    } else {
                        old(self)@.io[0x41] & 0b_1111_1011
                    },
                ),
                ..old(self)@
            }),
    {
        let lcd_stat = self.io_hw[0x41];
        let v = if lcy_eq_ly {
            lcd_stat | 0b_0000_0100
        } else {
            lcd_stat & 0b_1111_1011
        };
        self.io_hw.set(0x41, v);
        proof {
            assert(final(self)@.banks =~= old(self)@.banks);
        }
    }

    // writing to the DIV register from code should set it to 0x00
    // so this function is used to update it without clearing it
    pub fn increment_div(&mut self)
        requires
            old(self)@.wf(),
        ensures
            final(self)@ == (MemState {
                io: old(self)@.io.update(0x04, old(self)@.io[0x04].wrapping_add(1)),
                ..old(self)@
            }),
    {
        let div = self.io_hw[0x04];
        self.io_hw.set(0x04, div.wrapping_add(1));
        proof {
            assert(final(self)@.banks =~= old(self)@.banks);
        }
    }

    // TIMA overflow should request an interrupt
    pub fn increment_tima(&mut self)
        requires
            old(self)@.wf(),
        ensures
            final(self)@ == (MemState { io: tima_incremented(old(self)@.io), ..old(self)@ }),
    {
        let new_tima = self.io_hw[0x05].wrapping_add(1);
        self.io_hw.set(0x05, new_tima);
        // overflow !!
        if new_tima == 0 {
            // TIMA is reset to the value in TMA
            // and a timer interrupt is requested
            let tma = self.io_hw[0x06];
            self.io_hw.set(0x05, tma);
            // timer interrupt is bit 2
            let interrupts = self.io_hw[0x0F];
            self.io_hw.set(0x0F, interrupts | 0b0000_0100);
        }
        proof {
            assert(final(self)@.banks =~= old(self)@.banks);
            assert(final(self)@.io =~= tima_incremented(old(self)@.io));
        }
    }

    // LCD Y is read only
    pub fn increment_ly(&mut self)
        requires
            old(self)@.wf(),
        ensures
            final(self)@.wf(),
            final(self)@ == (MemState {
                io: old(self)@.io.update(0x44, ((old(self)@.io[0x44] + 1) % 154) as u8),
                ..old(self)@
            }),
    {
        let ly = self.io_hw[0x44];
        self.io_hw.set(0x44, (ly + 1) % 154);
        proof {
            assert(final(self)@.banks =~= old(self)@.banks);
        }
    }

    // Interrupts functions
    // https://gbdev.io/pandocs/Interrupts.html
    pub fn is_interrupt_enabled(&self, interrupt: u8) -> (b: bool)
        requires
            interrupt < 8,
        ensures
            b == bit_of(self@.ie, interrupt),
    {
        let interrupt_enable_byte = self.ie;
        (interrupt_enable_byte >> interrupt) & 1 == 1
    }

    pub fn is_interrupt_requested(&self, interrupt: u8) -> (b: bool)
        requires
            self@.wf(),
            interrupt < 8,
        ensures
            b == bit_of(self@.io[0x0F], interrupt),
    {
        let interrupt_request_byte = self.read_byte(0xFF0F);
        (interrupt_request_byte >> interrupt) & 1 == 1
    }

    pub fn request_interrupt(&mut self, interrupt: u8)
        requires
            old(self)@.wf(),
            interrupt < 8,
        ensures
            final(self)@ == (MemState {
                io: old(self)@.io.update(0x0F, old(self)@.io[0x0F] | (1u8 << interrupt)),
                ..old(self)@
            }),
    {
        let interrupt_request_byte = self.read_byte(0xFF0F);
        self.io_hw.set(0x0F, interrupt_request_byte | (1u8 << interrupt));
        proof {
            assert(final(self)@.banks =~= old(self)@.banks);
        }
    }

    pub fn clear_interrupt(&mut self, interrupt: u8)
        requires
            old(self)@.wf(),
            interrupt < 8,
        ensures
            final(self)@ == (MemState {
                io: old(self)@.io.update(0x0F, old(self)@.io[0x0F] & !(1u8 << interrupt)),
                ..old(self)@
            }),
    {
        let interrupt_request_byte = self.read_byte(0xFF0F);
        self.io_hw.set(0x0F, interrupt_request_byte & !(1u8 << interrupt));
        proof {
            assert(final(self)@.banks =~= old(self)@.banks);
        }
    }

    pub fn interrupt_pending_and_enabled(&self) -> (b: bool)
        requires
            self@.wf(),
        ensures
            b == (self@.ie & self@.io[0x0F] != 0),
    {
        let ie = self.ie;
        let i_request = self.io_hw[0x0F];
        (ie & i_request) != 0
    }

    // Timer
    pub fn is_timer_started(&self) -> (b: bool)
        requires
            self@.wf(),
        ensures
            b == bit_of(self@.io[0x07], 2),
    {
        // 0xFF07 : 2       |   1   0
        //          Enable  |   Clock Select
        (self.read_byte(0xFF07) >> 2) & 1 == 1
    }
}

/// The registers after TIMA is incremented: on overflow TIMA is reloaded
/// from TMA and the timer interrupt is requested.
pub open spec fn tima_incremented(io: Seq<u8>) -> Seq<u8> {
    let new_tima = io[0x05].wrapping_add(1);
    if new_tima == 0 {
        io.update(0x05, io[0x06]).update(0x0F, io[0x0F] | 0b0000_0100)
    } else {
        io.update(0x05, new_tima)
    }
}


/// The switchable banks of an MBC1 cartridge: the ROM after its first 16 KiB,
/// cut into 16 KiB banks, the last one padded with zeros.
pub open spec fn rom_banks(rom: Seq<u8>) -> Seq<Seq<u8>> {
    Seq::new(
        ((rom.len() - 0x4000 + 0x3FFF) / 0x4000) as nat,
        |k: int|
            Seq::new(
                0x4000,
                |j: int|
                    if 0x4000 * (k + 1) + j < rom.len() {
                        rom[0x4000 * (k + 1) + j]
                    } else {
                        0u8
                    },
            ),
    )
}

/// Whether `load_rom` accepts a cartridge image, given the current state.
pub open spec fn rom_loadable(state: MemState, rom: Seq<u8>) -> bool {
    &&& rom.len() >= 0x4000
    &&& rom[0x0147] == 0x00 || rom[0x0147] == 0x01
    &&& rom[0x0147] == 0x00 ==> rom.len() <= 0x8000
    &&& (rom[0x0147] == 0x00 && rom.len() > 0x4000) ==> state.banks.len() >= 1
}

impl MemState {
    /// The state after a cartridge image is mapped.
    pub open spec fn loaded(self, rom: Seq<u8>) -> MemState {
        // pretend we are always in V-Blank until the display runs
        let io = self.io.update(0x44, 144);
        if rom[0x0147] == 0x00 {
            // ROM ONLY: the rom is mapped to the two banks
            MemState {
                fixed: rom.take(0x4000),
                banks: if rom.len() > 0x4000 {
                    self.banks.update(
                        0,
                        rom.skip(0x4000) + self.banks[0].skip(rom.len() - 0x4000),
                    )
                } else {
                    self.banks
                },
                io,
                ..self
            }
        } else {
            // MBC1
            MemState { mbc: MBC::MBC1, fixed: rom.take(0x4000), banks: rom_banks(rom), io, ..self }
        }
    }
}

impl Memory {
    /// Maps a cartridge image: the first 16 KiB to the fixed bank, the rest to
    /// the switchable banks. The bank number selected before is kept, so the
    /// address space stays well formed when that number still names one of
    /// the new banks (as it does on a fresh address space, where it is 1).
    pub fn load_rom(&mut self, rom: Vec<u8>)
        requires
            old(self)@.wf(),
            rom_loadable(old(self)@, rom@),
        ensures
            final(self)@ == old(self)@.loaded(rom@),
            (final(self)@.banks.len() >= 1 ==> final(self)@.bank_index() < final(self)@.banks.len())
                ==> final(self)@.wf(),
            old(self)@.selected == 1 ==> final(self)@.wf(),
    {
        let ghost old_state = self@;
        // the fixed bank
        let mut fixed: Vec<u8> = Vec::new();
        let mut i: usize = 0;
        while i < 0x4000
            invariant
                i <= 0x4000,
                rom@.len() >= 0x4000,
                fixed@ =~= rom@.take(i as int),
            decreases 0x4000 - i,
        {
            fixed.push(rom[i]);
            i = i + 1;
            assert(fixed@ =~= rom@.take(i as int));
        }
        self.fixed_rom_bank = fixed;

        // check the cartridge memory bank controller byte
        let mbc_byte = rom[0x0147];
        if mbc_byte == 0x00 {
            // ROM ONLY
            if rom.len() > 0x4000 {
                let extra = rom.len() - 0x4000;
                let mut bank: Vec<u8> = Vec::new();
                let mut j: usize = 0;
                while j < 0x4000
                    invariant
                        j <= 0x4000,
                        extra == rom@.len() - 0x4000,
                        extra <= 0x4000,
                        self.switch_rom_bank@.len() >= 1,
                        self.switch_rom_bank@[0]@.len() == 0x4000,
                        bank@ =~= (rom@.skip(0x4000) + self.switch_rom_bank@[0]@.skip(
                            extra as int,
                        )).take(j as int),
                    decreases 0x4000 - j,
                {
                    let b = if j < extra {
                        rom[0x4000 + j]
                    } else {
                        self.switch_rom_bank[0][j]
                    };
                    bank.push(b);
                    j = j + 1;
                    assert(bank@ =~= (rom@.skip(0x4000) + self.switch_rom_bank@[0]@.skip(
                        extra as int,
                    )).take(j as int));
                }
                proof {
                    assert(bank@ =~= rom@.skip(0x4000) + old_state.banks[0].skip(extra as int));
                }
                self.switch_rom_bank.set(0, bank);
            }
        } else {
            // MBC1
            self.mbc = MBC::MBC1;
            // map the switchable banks until all the rom has been mapped
            let rest = rom.len() - 0x4000;
            let nb_banks = rest / 0x4000 + if rest % 0x4000 != 0 { 1 } else { 0 };
            let mut switchable_banks: Vec<Vec<u8>> = Vec::new();
            let mut k: usize = 0;
            while k < nb_banks
                invariant
                    k <= nb_banks,
                    rest == rom@.len() - 0x4000,
                    nb_banks == (rom@.len() - 0x4000 + 0x3FFF) / 0x4000,
                    switchable_banks@.len() == k,
                    forall|q: int| 0 <= q < k ==> #[trigger] switchable_banks@[q]@ == rom_banks(rom@)[q],
                decreases nb_banks - k,
            {
                assert(0x4000 * (k + 1) < rom.len());
                let start: usize = 0x4000usize * (k + 1);
                let mut bank: Vec<u8> = Vec::new();
                let mut j: usize = 0;
                while j < 0x4000
                    invariant
                        j <= 0x4000,
                        k < nb_banks,
                        nb_banks == (rom@.len() - 0x4000 + 0x3FFF) / 0x4000,
                        start == 0x4000 * (k + 1),
                        start < rom@.len(),
                        bank@ =~= rom_banks(rom@)[k as int].take(j as int),
                    decreases 0x4000 - j,
                {
                    let b = if j < rom.len() - start {
                        rom[start + j]
                    } else {
                        0
                    };
                    bank.push(b);
                    j = j + 1;
                    assert(bank@ =~= rom_banks(rom@)[k as int].take(j as int));
                }
                assert(bank@ =~= rom_banks(rom@)[k as int]);
                switchable_banks.push(bank);
                k = k + 1;
            }
            self.switch_rom_bank = switchable_banks;
            proof {
                assert(self@.banks =~= rom_banks(rom@));
            }
        }
        // pretend we are always in V-Blank until the display runs
        self.io_hw.set(0x44, 144);
        proof {
            if mbc_byte == 0x00 && rom@.len() <= 0x4000 {
                assert(self@.banks =~= old_state.banks);
            }
            if mbc_byte == 0x00 && rom@.len() > 0x4000 {
                assert(self@.banks =~= old_state.loaded(rom@).banks);
            }
            assert(self@.io =~= old_state.loaded(rom@).io);
        }
    }

    // Joypad register: https://gbdev.io/pandocs/Joypad_Input.html
    pub fn input_buttons_selected(&self) -> (b: bool)
        requires
            self@.wf(),
        ensures
            b == !bit_of(self@.io[0x00], 5),
    {
        let p1 = self.io_hw[0x00];
        assert((p1 >> 5u8) & 1 == 0 || (p1 >> 5u8) & 1 == 1) by (bit_vector);
        (p1 >> 5) & 1 == 0
    }

    pub fn input_dpad_selected(&self) -> (b: bool)
        requires
            self@.wf(),
        ensures
            b == !bit_of(self@.io[0x00], 4),
    {
        let p1 = self.io_hw[0x00];
        assert((p1 >> 4u8) & 1 == 0 || (p1 >> 4u8) & 1 == 1) by (bit_vector);
        (p1 >> 4) & 1 == 0
    }

    /// Stores the pressed buttons into the lower, read-only nibble of the joypad register.
    pub fn update_input_lower(&mut self, bits: u8)
        requires
            old(self)@.wf(),
        ensures
            final(self)@ == (MemState {
                io: old(self)@.io.update(0x00, (old(self)@.io[0x00] & 0xF0) | (bits & 0x0F)),
                ..old(self)@
            }),
    {
        let v = (self.io_hw[0x00] & 0xF0) | (bits & 0x0F);
        self.io_hw.set(0x00, v);
        proof {
            assert(final(self)@.banks =~= old(self)@.banks);
        }
    }

    // LCD control register : https://gbdev.io/pandocs/LCDC.html
    pub fn is_lcd_enabled(&self) -> (b: bool)
        requires
            self@.wf(),
        ensures
            b == bit_of(self@.io[0x40], 7),
    {
        (self.io_hw[0x40] >> 7) & 1 == 1
    }

    pub fn is_bg_tile_addressing_mode_normal(&self) -> (b: bool)
        requires
            self@.wf(),
        ensures
            b == bit_of(self@.io[0x40], 4),
    {
        (self.io_hw[0x40] >> 4) & 1 == 1
    }

    /// The background scrolling registers, as (SCX, SCY).
    pub fn read_scrolling_registers(&self) -> (r: (usize, usize))
        requires
            self@.wf(),
        ensures
            r == (self@.io[0x43] as usize, self@.io[0x42] as usize),
    {
        (self.io_hw[0x43] as usize, self.io_hw[0x42] as usize)
    }
}


/// Whether `addr` behaves as plain memory: what is written there is read back.
pub open spec fn is_plain_memory(addr: u16) -> bool {
    ||| 0x8000 <= addr < 0xE000
    ||| 0xFE00 <= addr < 0xFEA0
    ||| 0xFF80 <= addr
    ||| 0xFF05 <= addr <= 0xFF07
    ||| addr == 0xFF0F || addr == 0xFF40 || addr == 0xFF42 || addr == 0xFF43 || addr == 0xFF50
}

/// A byte written to plain memory (video RAM, external RAM, work RAM, object attributes,
/// high RAM, the interrupt registers and the read/write hardware registers)
/// is what a later read at that address gives back.
pub proof fn lemma_read_after_write(s: MemState, addr: u16, value: u8)
    requires
        s.wf(),
        is_plain_memory(addr),
    ensures
        s.write(addr, value).wf(),
        s.write(addr, value).readable(addr),
        s.write(addr, value).read(addr) == value,
        s.write_byte_outcome(addr, value) == (s.write(addr, value), Ok::<(), EmulationError>(())),
{
}

/// A write leaves what is read at every other address unchanged, except for
/// the bank select register (which changes the switchable ROM bank) and the
/// register that unmaps the boot ROM.
pub proof fn lemma_write_preserves_other_reads(s: MemState, addr: u16, value: u8, other: u16)
    requires
        s.wf(),
        other != addr,
        !(0x2000 <= addr < 0x4000),
        addr != 0xFF50,
        s.readable(other),
    ensures
        s.write(addr, value).readable(other),
        s.write(addr, value).read(other) == s.read(other),
{
}

/// Writes to the ROM area never change what is read from the fixed ROM bank
/// once the boot ROM is unmapped.
pub proof fn lemma_rom_is_read_only(s: MemState, addr: u16, value: u8, other: u16)
    requires
        s.wf(),
        addr < 0x8000,
        other < 0x4000,
        s.io[0x50] != 0,
    ensures
        s.write(addr, value).read(other) == s.read(other),
        s.read(other) == s.fixed[other as int],
{
}

/// On an MBC1 cartridge with at least one switchable bank, whatever is written
/// to the bank select register, the bank it selects exists.
pub proof fn lemma_bank_select_in_range(s: MemState, addr: u16, value: u8)
    requires
        s.wf(),
        s.mbc == MBC::MBC1,
        s.banks.len() >= 1,
        0x2000 <= addr < 0x4000,
    ensures
        forall|a: u16| 0x4000 <= a < 0x8000 ==> #[trigger] s.write(addr, value).readable(a),
{
    let n = s.banks.len();
    let nb = (n % 256) as u8;
    assert(nb as int <= n);
}

/// Writing the DIV register resets it, whatever the value written.
pub proof fn lemma_div_write_resets(s: MemState, value: u8)
    requires
        s.wf(),
    ensures
        s.write(0xFF04, value).read(0xFF04) == 0,
{
}

/// The three lower bits of LCD STAT are not changed by a write.
pub proof fn lemma_stat_low_bits_read_only(s: MemState, value: u8)
    requires
        s.wf(),
    ensures
        s.write(0xFF41, value).read(0xFF41) & 7 == s.read(0xFF41) & 7,
{
    let old_stat = s.io[0x41];
    assert(((old_stat & 7) | (value & 0xF8)) & 7 == old_stat & 7) by (bit_vector);
}

/// A word written to plain memory is the word read back.
pub proof fn lemma_word_read_after_write(s: MemState, addr: u16, value: u16)
    requires
        s.wf(),
        addr < 0xFFFF,
        is_plain_memory(addr),
        is_plain_memory((addr + 1) as u16),
    ensures
        s.write_word_outcome(addr, value).1 is Ok,
        s.write_word_outcome(addr, value).0.word_readable(addr),
        s.write_word_outcome(addr, value).0.read_word(addr) == value,
{
    let lo = crate::cpu::low_byte(value);
    let hi = crate::cpu::high_byte(value);
    let s1 = s.write(addr, lo);
    lemma_read_after_write(s, addr, lo);
    lemma_read_after_write(s1, (addr + 1) as u16, hi);
    lemma_write_preserves_other_reads(s1, (addr + 1) as u16, hi, addr);
}


/// The state of a fresh address space.
pub open spec fn new_memory_state() -> MemState {
    MemState {
        boot_rom: BOOT_ROM@,
        fixed: zeros(0x4000),
        banks: seq![zeros(0x4000)],
        vram: zeros(0x2000),
        ext_ram: zeros(0x2000),
        wram: zeros(0x4000),
        swram: zeros(0x4000),
        oam: zeros(160),
        io: zeros(0x80),
        hram: zeros(0x7F),
        ie: 0,
        mbc: MBC::NONE,
        selected: 1,
    }
}


impl Memory {
    /// Whether reading `address` is defined.
    pub fn is_readable(&self, address: u16) -> (b: bool)
        requires
            self@.wf(),
        ensures
            b == self@.readable(address),
    {
        if 0x4000 <= address && address < 0x8000 {
            self.switch_rom_bank.len() >= 1
        } else {
            !(0xE000 <= address && address < 0xFE00) && !(0xFEA0 <= address && address < 0xFF00)
        }
    }

    /// Whether writing `address` is defined.
    pub fn is_writable(address: u16) -> (b: bool)
        ensures
            b == MemState::writable(address),
    {
        !(0x4000 <= address && address < 0x6000)
    }

    /// Whether reading a word at `address` is defined.
    pub fn is_word_readable(&self, address: u16) -> (b: bool)
        requires
            self@.wf(),
        ensures
            b == self@.word_readable(address),
    {
        address < 0xFFFF && self.is_readable(address) && self.is_readable(address + 1)
    }

    /// Whether writing a word at `address` is defined.
    pub fn is_word_writable(address: u16) -> (b: bool)
        ensures
            b == MemState::word_writable(address),
    {
        address < 0xFFFF && Memory::is_writable(address) && Memory::is_writable(address + 1)
    }
}

} // verus!

verus! {

/// Why a cartridge image cannot be loaded.
#[derive(Debug, Clone, Copy, PartialEq, Eq, Structural)]
pub enum RomError {
    /// The image is smaller than its fixed 16 KiB bank.
    TooSmall,
    /// A cartridge without a bank controller holds at most 32 KiB.
    TooBigForType,
    /// The cartridge's memory bank controller (the byte at 0x0147) is not handled.
    UnsupportedController(u8),
}

/// The verdict on a cartridge image: its size is checked first, then its type.
pub open spec fn rom_check(rom: Seq<u8>) -> Result<(), RomError> {
    if rom.len() < 0x4000 {
        Err(RomError::TooSmall)
    } else if rom[0x0147] == 0x00 {
        if rom.len() > 0x8000 {
            Err(RomError::TooBigForType)
        } else {
            Ok(())
        }
    } else if rom[0x0147] == 0x01 {
        Ok(())
    } else {
        Err(RomError::UnsupportedController(rom[0x0147]))
    }
}

/// Checks whether a cartridge image can be loaded into a fresh console.
pub fn check_rom(rom: &Vec<u8>) -> (r: Result<(), RomError>)
    ensures
        r == rom_check(rom@),
        r is Ok <==> rom_loadable(new_memory_state(), rom@),
{
    if rom.len() < 0x4000 {
        return Err(RomError::TooSmall);
    }
    let mbc_byte = rom[0x0147];
    if mbc_byte == 0x00 {
        if rom.len() > 0x8000 {
            Err(RomError::TooBigForType)
        } else {
            Ok(())
        }
    } else if mbc_byte == 0x01 {
        Ok(())
    } else {
        Err(RomError::UnsupportedController(mbc_byte))
    }
}

/// The name of the cartridge type stored in the byte at 0x0147.
pub open spec fn cartridge_type_text(code: u8) -> Seq<char> {
    if code == 0x00 {
        "ROM ONLY"@
    } else if code == 0x01 {
        "MBC1"@
    } else if code == 0x02 {
        "MBC1+RAM"@
    } else if code == 0x03 {
        "MBC1+RAM+BATTERY"@
    } else if code == 0x05 {
        "MBC2"@
    } else if code == 0x06 {
        "MBC2+BATTERY"@
    } else if code == 0x08 {
        "ROM+RAM"@
    } else if code == 0x09 {
        "ROM+RAM+BATTERY"@
    } else if code == 0x0B {
        "MMM01"@
    } else if code == 0x0C {
        "MMM01+RAM"@
    } else if code == 0x0D {
        "MMM01+RAM+BATTERY"@
    } else if code == 0x0F {
        "MBC3+TIMER+BATTERY"@
    } else if code == 0x10 {
        "MBC3+TIMER+RAM+BATTERY"@
    } else if code == 0x11 {
        "MBC3"@
    } else if code == 0x12 {
        "MBC3+RAM"@
    } else if code == 0x13 {
        "MBC3+RAM+BATTERY"@
    } else if code == 0x19 {
        "MBC5"@
    } else if code == 0x1A {
        "MBC5+RAM"@
    } else if code == 0x1B {
        "MBC5+RAM+BATTERY"@
    } else if code == 0x1C {
        "MBC5+RUMBLE"@
    } else if code == 0x1D {
        "MBC5+RUMBLE+RAM"@
    } else if code == 0x1E {
        "MBC5+RUMBLE+RAM+BATTERY"@
    } else if code == 0xFC {
        "POCKET CAMERA"@
    } else if code == 0xFD {
        "BANDAI TAMA5"@
    } else if code == 0xFE {
        "HuC3"@
    } else if code == 0xFF {
        "HuC1+RAM+BATTERY"@
    } else {
        "UNKNOWN"@
    }
}

/// The name of the cartridge type stored in the byte at 0x0147.
pub fn cartridge_type_name(code: u8) -> (s: &'static str)
    ensures
        s@ == cartridge_type_text(code),
{
    match code {
        0x00 => "ROM ONLY",
        0x01 => "MBC1",
        0x02 => "MBC1+RAM",
        0x03 => "MBC1+RAM+BATTERY",
        0x05 => "MBC2",
        0x06 => "MBC2+BATTERY",
        0x08 => "ROM+RAM",
        0x09 => "ROM+RAM+BATTERY",
        0x0B => "MMM01",
        0x0C => "MMM01+RAM",
        0x0D => "MMM01+RAM+BATTERY",
        0x0F => "MBC3+TIMER+BATTERY",
        0x10 => "MBC3+TIMER+RAM+BATTERY",
        0x11 => "MBC3",
        0x12 => "MBC3+RAM",
        0x13 => "MBC3+RAM+BATTERY",
        0x19 => "MBC5",
        0x1A => "MBC5+RAM",
        0x1B => "MBC5+RAM+BATTERY",
        0x1C => "MBC5+RUMBLE",
        0x1D => "MBC5+RUMBLE+RAM",
        0x1E => "MBC5+RUMBLE+RAM+BATTERY",
        0xFC => "POCKET CAMERA",
        0xFD => "BANDAI TAMA5",
        0xFE => "HuC3",
        0xFF => "HuC1+RAM+BATTERY",
        _ => "UNKNOWN",
    }
}

} // verus!
