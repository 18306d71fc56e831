use koholint::decoding::{disassemble, instruction_to_string, try_decode_instruction, Operand};
use koholint::error::EmulationErrorType;
use koholint::gameboy::{Gameboy, FRAMEBUFFER_BYTES};
use koholint::input::GBInputState;

fn rom_only() -> Vec<u8> {
    vec![0u8; 0x8000]
}

fn step(gb: &mut Gameboy) -> u64 {
    match gb.step() {
        Ok(c) => c,
        Err(e) => panic!("{}", e.to_string()),
    }
}

#[test]
fn a_new_console_starts_in_the_boot_rom() {
    let gb = Gameboy::new(rom_only());
    assert_eq!(gb.cpu().read_program_counter(), 0);
    assert_eq!(gb.memory().read_byte(0x0000), 0x31);
    assert_eq!(gb.get_framebuffer().len(), FRAMEBUFFER_BYTES);
    assert!(gb.get_framebuffer().iter().all(|b| *b == 0));
}

#[test]
fn first_boot_instructions() {
    let mut gb = Gameboy::new(rom_only());
    // ld sp, 0xFFFE
    assert_eq!(step(&mut gb), 12);
    assert_eq!(gb.cpu().read_stack_pointer(), 0xFFFE);
    assert_eq!(gb.cpu().read_program_counter(), 3);
    // xor a, a
    assert_eq!(step(&mut gb), 4);
    assert_eq!(gb.cpu().read_a_register(), 0);
    assert!(gb.cpu().read_z_flag());
    assert!(!gb.cpu().read_c_flag());
    // ld hl, 0x9FFF
    assert_eq!(step(&mut gb), 12);
    assert_eq!(gb.cpu().read_hl_register(), 0x9FFF);
    // ld (hl-), a
    assert_eq!(step(&mut gb), 8);
    assert_eq!(gb.cpu().read_hl_register(), 0x9FFE);
    assert_eq!(gb.memory().read_byte(0x9FFF), 0);
    // bit 7, h  (h holds the low byte of hl)
    assert_eq!(step(&mut gb), 8);
    assert!(!gb.cpu().read_z_flag());
    assert!(gb.cpu().read_h_flag());
    assert_eq!(gb.cpu().read_program_counter(), 10);
    // jr nz, -5 is taken
    assert_eq!(step(&mut gb), 12);
    assert_eq!(gb.cpu().read_program_counter(), 7);
}

#[test]
fn video_ram_clear_loop_ends_when_bit_7_of_h_is_clear() {
    let mut gb = Gameboy::new(rom_only());
    let mut steps = 0;
    let mut cycles: Vec<u64> = Vec::new();
    while gb.cpu().read_program_counter() != 0x000C {
        cycles.push(step(&mut gb));
        steps += 1;
        assert!(steps < 100_000);
    }
    // h holds the low byte of hl, so the loop stops when that byte drops below 0x80
    assert_eq!(steps, 3 + 128 * 3);
    assert_eq!(gb.cpu().read_hl_register(), 0x9F7F);
    assert!(gb.cpu().read_z_flag());
    // the last jump is not taken
    assert_eq!(*cycles.last().unwrap(), 8);
    // DIV counts one every 256 cycles, checked before a step's cycles are added
    let mut div_cycles = 0u64;
    let mut div = 0u8;
    for c in &cycles {
        if div_cycles >= 256 {
            div_cycles -= 256;
            div = div.wrapping_add(1);
        }
        div_cycles += c;
    }
    assert_eq!(gb.memory().read_byte(0xFF04), div);
    assert_eq!(cycles.iter().sum::<u64>(), 28 + 128 * 28 - 4);
}

#[test]
fn boot_logo_copy_runs_into_echo_ram() {
    // with the pairs' registers stored as they are here (the first register
    // of a pair is its low byte), the logo copy loop of the boot code runs
    // past work RAM and external RAM, and the write to echo RAM is refused
    let mut gb = Gameboy::new(rom_only());
    let mut steps = 0u64;
    let err = loop {
        match gb.step() {
            Ok(_) => {}
            Err(e) => break e,
        }
        steps += 1;
        assert!(steps < 2_000_000);
    };
    assert!(matches!(err.ty, EmulationErrorType::UnauthorizedWrite(0xE000)));
    assert_eq!(err.pc, Some(0x00A3));
    assert_eq!(
        err.to_string(),
        "Unauthorized write (Address : 0xE000) at PC 0x00A3"
    );
}

#[test]
fn try_step_agrees_with_step() {
    let mut a = Gameboy::new(rom_only());
    let mut b = Gameboy::new(rom_only());
    for _ in 0..100 {
        let ra = a.step().ok();
        let rb = b.try_step().expect("defined").ok();
        assert_eq!(ra, rb);
        assert_eq!(a.cpu().read_program_counter(), b.cpu().read_program_counter());
    }
}

#[test]
fn disassembly_of_the_boot_code() {
    let gb = Gameboy::new(rom_only());
    let listing = disassemble(&gb, 0, 6);
    let text: Vec<(u16, String)> =
        listing.iter().map(|(a, i)| (*a, instruction_to_string(i))).collect();
    assert_eq!(
        text,
        vec![
            (0x0000, "ld sp, 0xFFFE".to_string()),
            (0x0003, "xor a, a".to_string()),
            (0x0004, "ld hl, 0x9FFF".to_string()),
            (0x0007, "ld (hl-), a".to_string()),
            (0x0008, "bit 7, h".to_string()),
            (0x000A, "jr nz, -5".to_string()),
        ]
    );
}

#[test]
fn disassembly_stops_at_unreadable_memory() {
    let gb = Gameboy::new(rom_only());
    // echo RAM is not mapped
    assert!(try_decode_instruction(&gb, 0xE000).is_none());
    assert!(disassemble(&gb, 0xE000, 3).is_empty());
    // work RAM and external RAM can be read
    assert!(try_decode_instruction(&gb, 0xC000).is_some());
    assert!(try_decode_instruction(&gb, 0xA000).is_some());
    // an instruction whose bytes run into echo RAM cannot
    assert!(try_decode_instruction(&gb, 0xDFFE).is_none());
}

#[test]
fn joypad_press_requests_the_joypad_interrupt() {
    let mut gb = Gameboy::new(rom_only());
    let mut input = GBInputState::default();
    // no button held: no interrupt
    gb.update_input(&input);
    assert!(!gb.memory().is_interrupt_requested(4));
    // both groups are selected (their bits are 0): a held button requests it
    input.right = true;
    gb.update_input(&input);
    assert!(gb.memory().is_interrupt_requested(4));
}

#[test]
fn object_buffers_read_object_memory() {
    let gb = Gameboy::new(rom_only());
    let ys = gb.get_obj_y_pos_buffer();
    let xs = gb.get_obj_x_pos_buffer();
    let ids = gb.get_obj_sprite_ids_buffer();
    assert_eq!(ys.len(), 40);
    assert!(ys.iter().chain(xs.iter()).chain(ids.iter()).all(|v| *v == 0));
}

#[test]
fn tile_atlas_of_empty_video_ram() {
    let gb = Gameboy::new(rom_only());
    let img = gb.get_tile_atlas_2bpp();
    assert_eq!(img.len(), 65536);
    assert!(img.iter().all(|p| *p == 0));
}

#[test]
fn register_read_through_the_console() {
    let mut gb = Gameboy::new(rom_only());
    step(&mut gb);
    step(&mut gb);
    step(&mut gb);
    assert_eq!(gb.cpu().read_r8(&Operand::R8_H), 0xFF);
    assert_eq!(gb.cpu().read_r8(&Operand::R8_L), 0x9F);
}

#[test]
fn push_then_pop_in_the_logo_routine_restores_bc() {
    let mut gb = Gameboy::new(rom_only());
    let mut steps = 0;
    // run to the `push bc` of the logo routine
    while gb.cpu().read_program_counter() != 0x0098 {
        step(&mut gb);
        steps += 1;
        assert!(steps < 100_000);
    }
    let bc = gb.cpu().read_r16(&Operand::R16_BC);
    let sp = gb.cpu().read_stack_pointer();
    assert_eq!(step(&mut gb), 16); // push bc
    assert_eq!(gb.cpu().read_stack_pointer(), sp - 2);
    step(&mut gb); // rl c
    step(&mut gb); // rla
    assert_eq!(gb.cpu().read_program_counter(), 0x009C);
    assert_eq!(step(&mut gb), 12); // pop bc
    assert_eq!(gb.cpu().read_r16(&Operand::R16_BC), bc);
    assert_eq!(gb.cpu().read_stack_pointer(), sp);
    assert_eq!(gb.cpu().read_program_counter(), 0x009D);
}

#[test]
fn call_then_ret_comes_back_after_the_call() {
    let mut gb = Gameboy::new(rom_only());
    let mut steps = 0;
    while gb.cpu().read_program_counter() != 0x0028 {
        step(&mut gb);
        steps += 1;
        assert!(steps < 100_000);
    }
    let sp = gb.cpu().read_stack_pointer();
    assert_eq!(step(&mut gb), 24); // call 0x0095
    assert_eq!(gb.cpu().read_program_counter(), 0x0095);
    assert_eq!(gb.memory().read_word(sp - 2), 0x002B);
    while gb.cpu().read_program_counter() != 0x00A7 {
        step(&mut gb);
    }
    assert_eq!(step(&mut gb), 16); // ret
    assert_eq!(gb.cpu().read_program_counter(), 0x002B);
    assert_eq!(gb.cpu().read_stack_pointer(), sp);
}
