use koholint::decoding::instruction_to_string;
use koholint::emulator::{BreakpointFieldError, EmulatorApp};
use koholint::command::ParseIntErrorKind;
use koholint::error::{EmulationError, EmulationErrorType};
use koholint::gameboy::Gameboy;
use koholint::input::{handle_key, GBInputState, Key, KeyAction, KeyResponse};
use koholint::instructions;

#[test]
fn default_input_holds_no_button() {
    let s = GBInputState::default();
    assert!(!(s.up || s.right || s.left || s.down || s.a || s.b || s.start || s.select));
}

#[test]
fn keys_hold_and_release_buttons() {
    let mut s = GBInputState::default();
    assert_eq!(handle_key(&mut s, Key::Up, KeyAction::Press), KeyResponse::Nothing);
    assert!(s.up);
    assert_eq!(handle_key(&mut s, Key::Z, KeyAction::Press), KeyResponse::Nothing);
    assert!(s.b && !s.a);
    assert_eq!(handle_key(&mut s, Key::X, KeyAction::Press), KeyResponse::Nothing);
    assert!(s.a);
    handle_key(&mut s, Key::Up, KeyAction::Repeat);
    assert!(s.up);
    handle_key(&mut s, Key::Up, KeyAction::Release);
    assert!(!s.up && s.a && s.b);
    handle_key(&mut s, Key::Other, KeyAction::Press);
    assert!(!s.up && s.a && s.b);
}

#[test]
fn escape_closes_and_p_pauses() {
    let mut s = GBInputState::default();
    assert_eq!(handle_key(&mut s, Key::Escape, KeyAction::Press), KeyResponse::Close);
    assert_eq!(handle_key(&mut s, Key::Escape, KeyAction::Release), KeyResponse::Nothing);
    assert_eq!(handle_key(&mut s, Key::P, KeyAction::Press), KeyResponse::Pause);
}

#[test]
fn error_texts() {
    let decode = EmulationError {
        ty: EmulationErrorType::UnhandledInstructionDecode(0xD3),
        pc: Some(0x0150),
    };
    assert_eq!(decode.to_string(), "Unhandled instruction during decoding : 0xD3 at PC 0x0150");
    let prefixed = EmulationError {
        ty: EmulationErrorType::UnhandledInstructionDecode(0xCB40),
        pc: None,
    };
    assert_eq!(prefixed.to_string(), "Unhandled instruction during decoding : 0xCB40 ");
    let write = EmulationError { ty: EmulationErrorType::UnauthorizedWrite(0x7000), pc: None };
    assert_eq!(write.to_string(), "Unauthorized write (Address : 0x7000) ");
}

#[test]
fn app_runs_until_a_breakpoint() {
    let mut app = EmulatorApp::with_console(Gameboy::new(vec![0u8; 0x8000]));
    assert!(app.is_paused());
    app.set_breakpoint_field("0007".to_string());
    assert_eq!(app.add_breakpoint_from_field(), Ok(()));
    assert_eq!(app.breakpoint_field(), "");
    assert_eq!(app.breakpoints(), &vec![0x0007]);
    app.set_breakpoint_field("7".to_string());
    assert_eq!(app.add_breakpoint_from_field(), Err(BreakpointFieldError::AlreadyPlaced));
    assert_eq!(app.breakpoint_field(), "7");
    app.set_breakpoint_field("zz".to_string());
    assert_eq!(
        app.add_breakpoint_from_field(),
        Err(BreakpointFieldError::InvalidNumber(ParseIntErrorKind::InvalidDigit))
    );
    app.resume();
    let mut steps = 0;
    while !app.is_paused() {
        app.run_step().unwrap().unwrap();
        steps += 1;
    }
    assert_eq!(steps, 3);
    assert_eq!(app.console().cpu().read_program_counter(), 0x0007);
    let view: Vec<String> = app.assembly_view().iter().map(|(_, i)| instruction_to_string(i)).collect();
    assert_eq!(view[0], "ld (hl-), a");
    assert_eq!(view.len(), 5);
    assert_eq!(app.next().unwrap().ok(), Some(8));
    assert_eq!(app.console().cpu().read_program_counter(), 0x0008);
}

#[test]
fn first_decoder_reads_the_boot_code() {
    let gb = Gameboy::new(vec![0u8; 0x8000]);
    let i = instructions::decode_next_instruction(&gb);
    assert_eq!(
        i,
        instructions::Instruction {
            op: instructions::Operation::LD_R16_IMM16 {
                r16: instructions::Operand::R16_SP,
                imm16: 0xFFFE
            },
            size: 3
        }
    );
    assert_eq!(instructions::get_instruction_assembly(&i), "ld sp, 0xFFFE");
    assert_eq!(i.to_string(), "ld sp, 0xFFFE");
    let h = instructions::decode_instruction(&gb, 0x0004);
    assert_eq!(h.to_string(), "ld hl, 0x9FFF");
}

#[test]
fn first_decoder_text() {
    let dec = instructions::Instruction { op: instructions::Operation::DEC_R8 { r8: instructions::Operand::R8_C }, size: 1 };
    assert_eq!(dec.to_string(), "dec c");
    let ld = instructions::Instruction { op: instructions::Operation::LD_R8_IMM8 { r8: instructions::Operand::R8_B, imm8: 0x5 }, size: 2 };
    assert_eq!(ld.to_string(), "ld b, 0x05");
    let jp = instructions::Instruction { op: instructions::Operation::JP_IMM16 { imm16: 0x150 }, size: 3 };
    assert_eq!(jp.to_string(), "jp 0x0150");
    let nop = instructions::Instruction { op: instructions::Operation::NOP, size: 1 };
    assert_eq!(nop.to_string(), "nop");
}
