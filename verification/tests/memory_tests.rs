use koholint::error::EmulationErrorType;
use koholint::memory::{cartridge_type_name, check_rom, Memory, RomError, BOOT_ROM};

fn rom_with(size: usize, kind: u8) -> Vec<u8> {
    let mut rom = vec![0u8; size];
    for (i, byte) in rom.iter_mut().enumerate() {
        // each 16 KiB bank is filled with its number
        *byte = (i / 0x4000) as u8;
    }
    if size > 0x0147 {
        rom[0x0147] = kind;
    }
    rom
}

#[test]
fn boot_rom_is_mapped_at_start() {
    let mem = Memory::new();
    assert_eq!(mem.read_byte(0x0000), 0x31);
    assert_eq!(mem.read_byte(0x00FF), BOOT_ROM[0xFF]);
    assert_eq!(mem.read_word(0x0001), 0xFFFE);
}

#[test]
fn work_ram_reads_back_what_is_written() {
    let mut mem = Memory::new();
    assert!(mem.write_byte(0xC123, 0xAB).is_ok());
    assert_eq!(mem.read_byte(0xC123), 0xAB);
    assert!(mem.write_word(0xFF80, 0xBEEF).is_ok());
    assert_eq!(mem.read_word(0xFF80), 0xBEEF);
    assert_eq!(mem.read_byte(0xFF80), 0xEF);
}

#[test]
fn external_ram_reads_back_what_is_written() {
    let mut mem = Memory::new();
    assert_eq!(mem.read_byte(0xA000), 0);
    assert!(mem.write_byte(0xBFFF, 0x5A).is_ok());
    assert_eq!(mem.read_byte(0xBFFF), 0x5A);
}

#[test]
fn echo_ram_write_is_unauthorized() {
    let mut mem = Memory::new();
    match mem.write_byte(0xE000, 1) {
        Err(e) => {
            assert!(matches!(e.ty, EmulationErrorType::UnauthorizedWrite(0xE000)));
            assert_eq!(e.pc, None);
        }
        Ok(()) => panic!("echo RAM is not writable"),
    }
}

#[test]
fn div_write_resets_it() {
    let mut mem = Memory::new();
    mem.increment_div();
    mem.increment_div();
    assert_eq!(mem.read_byte(0xFF04), 2);
    assert!(mem.write_byte(0xFF04, 0x55).is_ok());
    assert_eq!(mem.read_byte(0xFF04), 0);
}

#[test]
fn stat_low_bits_are_read_only() {
    let mut mem = Memory::new();
    mem._update_lcd_stat_ppu_mode(2);
    mem.update_lcd_stat_lcy_eq_ly(true);
    // the LY == LYC flag is bit 2
    assert_eq!(mem.read_byte(0xFF41), 0b0110);
    assert!(mem.write_byte(0xFF41, 0xFF).is_ok());
    assert_eq!(mem.read_byte(0xFF41), 0xFE);
    mem.update_lcd_stat_lcy_eq_ly(false);
    assert_eq!(mem.read_byte(0xFF41), 0xFA);
}

#[test]
fn joypad_register_reads_no_button() {
    let mem = Memory::new();
    assert_eq!(mem.read_byte(0xFF00), 0x0F);
}

#[test]
fn interrupts_requested_and_cleared() {
    let mut mem = Memory::new();
    assert!(!mem.is_interrupt_requested(2));
    mem.request_interrupt(2);
    assert!(mem.is_interrupt_requested(2));
    assert!(!mem.interrupt_pending_and_enabled());
    assert!(mem.write_byte(0xFFFF, 0b100).is_ok());
    assert!(mem.is_interrupt_enabled(2));
    assert!(mem.interrupt_pending_and_enabled());
    mem.clear_interrupt(2);
    assert!(!mem.is_interrupt_requested(2));
}

#[test]
fn tima_overflow_reloads_tma_and_requests_timer_interrupt() {
    let mut mem = Memory::new();
    assert!(mem.write_byte(0xFF06, 0x42).is_ok());
    assert!(mem.write_byte(0xFF05, 0xFF).is_ok());
    mem.increment_tima();
    assert_eq!(mem.read_byte(0xFF05), 0x42);
    assert!(mem.is_interrupt_requested(2));
    mem.increment_tima();
    assert_eq!(mem.read_byte(0xFF05), 0x43);
}

#[test]
fn timer_started_by_tac_bit_2() {
    let mut mem = Memory::new();
    assert!(!mem.is_timer_started());
    assert!(mem.write_byte(0xFF07, 0b101).is_ok());
    assert!(mem.is_timer_started());
}

#[test]
fn line_counter_wraps_after_153() {
    let mut mem = Memory::new();
    for _ in 0..153 {
        mem.increment_ly();
    }
    assert_eq!(mem.read_byte(0xFF44), 153);
    mem.increment_ly();
    assert_eq!(mem.read_byte(0xFF44), 0);
}

#[test]
fn rom_only_cartridge_is_mapped_after_boot() {
    let rom = rom_with(0x8000, 0x00);
    let mut mem = Memory::new();
    mem.load_rom(rom);
    assert_eq!(mem.read_byte(0x0000), 0x31);
    assert_eq!(mem.read_byte(0x0147), 0x00);
    assert_eq!(mem.read_byte(0x4000), 1);
    assert_eq!(mem.read_byte(0xFF44), 144);
    assert!(mem.write_byte(0xFF50, 1).is_ok());
    assert_eq!(mem.read_byte(0x0000), 0);
}

#[test]
fn mbc1_bank_select_is_corrected_and_clamped() {
    let rom = rom_with(0x10000, 0x01);
    let mut mem = Memory::new();
    mem.load_rom(rom);
    assert_eq!(mem.read_byte(0x4000), 1);
    assert!(mem.write_byte(0x2000, 2).is_ok());
    assert_eq!(mem.read_byte(0x4000), 2);
    assert!(mem.write_byte(0x2000, 0).is_ok());
    assert_eq!(mem.read_byte(0x7FFF), 1);
    assert!(mem.write_byte(0x3FFF, 9).is_ok());
    assert_eq!(mem.read_byte(0x4000), 3);
}

#[test]
fn mbc1_last_bank_is_padded() {
    let rom = rom_with(0x6000, 0x01);
    let mut mem = Memory::new();
    mem.load_rom(rom);
    assert_eq!(mem.read_byte(0x5FFF), 1);
    assert_eq!(mem.read_byte(0x6000), 0);
}

#[test]
fn rom_checks() {
    assert_eq!(check_rom(&vec![0u8; 0x3FFF]), Err(RomError::TooSmall));
    assert_eq!(check_rom(&rom_with(0x8000, 0x00)), Ok(()));
    assert_eq!(check_rom(&rom_with(0x8001, 0x00)), Err(RomError::TooBigForType));
    assert_eq!(check_rom(&rom_with(0x20000, 0x01)), Ok(()));
    assert_eq!(check_rom(&rom_with(0x8000, 0x13)), Err(RomError::UnsupportedController(0x13)));
}

#[test]
fn cartridge_type_names() {
    assert_eq!(cartridge_type_name(0x00), "ROM ONLY");
    assert_eq!(cartridge_type_name(0x13), "MBC3+RAM+BATTERY");
    assert_eq!(cartridge_type_name(0xFF), "HuC1+RAM+BATTERY");
    assert_eq!(cartridge_type_name(0x04), "UNKNOWN");
}
