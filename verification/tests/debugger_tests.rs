use koholint::command::{
    parse_command, parse_decimal_i32, parse_hex_u16, Command, CommandError, ParseIntErrorKind,
    Register,
};
use koholint::debugger::{BreakpointError, Debugger};
use koholint::gameboy::Gameboy;

fn words(line: &str) -> Vec<&str> {
    line.split_whitespace().collect()
}

#[test]
fn new_debugger_has_no_breakpoint() {
    let d = Debugger::new(true);
    assert!(d.is_paused());
    assert!(d.breakpoints().is_empty());
    let d = Debugger::new(false);
    assert!(!d.is_paused());
}

#[test]
fn breakpoint_placed_once() {
    let mut d = Debugger::new(false);
    assert_eq!(d.add_breakpoint(0x0100), Ok(()));
    assert_eq!(d.add_breakpoint(0x0150), Ok(()));
    assert_eq!(d.add_breakpoint(0x0100), Err(BreakpointError::AlreadyPlaced));
    assert_eq!(d.breakpoints(), &vec![0x0100, 0x0150]);
    assert!(d.has_breakpoint(0x0150));
}

#[test]
fn breakpoint_removed() {
    let mut d = Debugger::new(false);
    assert_eq!(d.remove_breakpoint(0x0100), Err(BreakpointError::NotFound));
    d.add_breakpoint(0x0100).unwrap();
    d.add_breakpoint(0x0200).unwrap();
    assert_eq!(d.remove_breakpoint(0x0100), Ok(()));
    assert_eq!(d.breakpoints(), &vec![0x0200]);
    assert!(!d.has_breakpoint(0x0100));
    assert_eq!(d.remove_breakpoint(0x0100), Err(BreakpointError::NotFound));
}

#[test]
fn add_then_remove_restores_the_breakpoints() {
    let mut d = Debugger::new(false);
    d.add_breakpoint(0x10).unwrap();
    let before = d.breakpoints().clone();
    d.add_breakpoint(0x20).unwrap();
    d.remove_breakpoint(0x20).unwrap();
    assert_eq!(d.breakpoints(), &before);
}

#[test]
fn pause_and_resume() {
    let mut d = Debugger::new(false);
    d.pause();
    assert!(d.is_paused());
    d.resume();
    assert!(!d.is_paused());
}

#[test]
fn step_pauses_on_a_breakpoint() {
    let mut gb = Gameboy::new(vec![0u8; 0x8000]);
    let mut d = Debugger::new(false);
    d.add_breakpoint(0x0004).unwrap();
    assert_eq!(d.step(&mut gb).unwrap().ok(), Some(12));
    assert!(!d.is_paused());
    assert_eq!(d.step(&mut gb).unwrap().ok(), Some(4));
    assert_eq!(gb.cpu().read_program_counter(), 0x0004);
    assert!(d.is_paused());
}

#[test]
fn hex_numbers() {
    assert_eq!(parse_hex_u16("0150"), Ok(0x0150));
    assert_eq!(parse_hex_u16("fffF"), Ok(0xFFFF));
    assert_eq!(parse_hex_u16("+1a"), Ok(0x1A));
    assert_eq!(parse_hex_u16(""), Err(ParseIntErrorKind::Empty));
    assert_eq!(parse_hex_u16("+"), Err(ParseIntErrorKind::InvalidDigit));
    assert_eq!(parse_hex_u16("-1"), Err(ParseIntErrorKind::InvalidDigit));
    assert_eq!(parse_hex_u16("0x10"), Err(ParseIntErrorKind::InvalidDigit));
    assert_eq!(parse_hex_u16("10000"), Err(ParseIntErrorKind::PosOverflow));
    assert_eq!(parse_hex_u16("10000g"), Err(ParseIntErrorKind::PosOverflow));
    assert_eq!(parse_hex_u16("1g0000"), Err(ParseIntErrorKind::InvalidDigit));
}

#[test]
fn hex_numbers_match_the_standard_library() {
    for text in ["0", "ff", "FFFF", "+7", "", "+", "-", "x", "12345", "00000001", "é"] {
        let ours = parse_hex_u16(text).map_err(|k| k.description().to_string());
        let std = u16::from_str_radix(text, 16).map_err(|e| e.to_string());
        assert_eq!(ours, std, "{text}");
    }
}

#[test]
fn decimal_numbers_match_the_standard_library() {
    for text in [
        "5", "-3", "+12", "2147483647", "2147483648", "-2147483648", "-2147483649", "", "-", "1a",
        "007",
    ] {
        let ours = parse_decimal_i32(text).map_err(|k| k.description().to_string());
        let std = text.parse::<i32>().map_err(|e| e.to_string());
        assert_eq!(ours, std, "{text}");
    }
}

#[test]
fn commands() {
    assert_eq!(parse_command(&words("")), Ok(Command::Step));
    assert_eq!(parse_command(&words("   ")), Ok(Command::Step));
    assert_eq!(parse_command(&words("help")), Ok(Command::Help));
    assert_eq!(parse_command(&words("h")), Ok(Command::Help));
    assert_eq!(parse_command(&words("exit")), Ok(Command::Exit));
    assert_eq!(parse_command(&words("l")), Ok(Command::List { count: 5 }));
    assert_eq!(parse_command(&words("list 12")), Ok(Command::List { count: 12 }));
    assert_eq!(
        parse_command(&words("list x")),
        Err(CommandError::InvalidNumber(ParseIntErrorKind::InvalidDigit))
    );
    assert_eq!(parse_command(&words("p hl")), Ok(Command::Print { register: Register::HL }));
    assert_eq!(parse_command(&words("print")), Err(CommandError::MissingRegister));
    assert_eq!(parse_command(&words("print ix")), Err(CommandError::UnknownRegister));
    assert_eq!(parse_command(&words("f")), Ok(Command::Flags));
    assert_eq!(parse_command(&words("next")), Ok(Command::Next));
    assert_eq!(parse_command(&words("c")), Ok(Command::Continue));
    assert_eq!(parse_command(&words("b 0150")), Ok(Command::Break { address: 0x0150 }));
    assert_eq!(parse_command(&words("break")), Err(CommandError::MissingAddress));
    assert_eq!(
        parse_command(&words("break 12345")),
        Err(CommandError::InvalidNumber(ParseIntErrorKind::PosOverflow))
    );
    assert_eq!(parse_command(&words("r c3")), Ok(Command::Remove { address: 0xC3 }));
    assert_eq!(parse_command(&words("dump")), Ok(Command::Dump));
    assert_eq!(parse_command(&words("tilemap")), Ok(Command::Tilemap));
    assert_eq!(parse_command(&words("jump")), Err(CommandError::UnknownCommand));
    assert_eq!(parse_command(&words("HELP")), Err(CommandError::UnknownCommand));
}
