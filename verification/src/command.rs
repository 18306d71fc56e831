use vstd::prelude::*;

verus! {

// The commands of the debugger's prompt, and the numbers they take.

/// Why a number could not be read, as for the integer parsing of the
/// standard library.
#[derive(Debug, Clone, Copy, PartialEq, Eq, Structural)]
pub enum ParseIntErrorKind {
    /// The text is empty.
    Empty,
    /// A character is not a digit of the base (or a sign stands alone).
    InvalidDigit,
    /// The number is too large for its type.
    PosOverflow,
    /// The number is too small for its type.
    NegOverflow,
}

impl ParseIntErrorKind {
    /// The message the standard library gives for this error.
    pub fn description(&self) -> (s: &'static str)
        ensures
            s@ == parse_error_text(*self),
    {
        match self {
            ParseIntErrorKind::Empty => "cannot parse integer from empty string",
            ParseIntErrorKind::InvalidDigit => "invalid digit found in string",
            ParseIntErrorKind::PosOverflow => "number too large to fit in target type",
            ParseIntErrorKind::NegOverflow => "number too small to fit in target type",
        }
    }
}

/// The message for a parse error.
pub open spec fn parse_error_text(k: ParseIntErrorKind) -> Seq<char> {
    match k {
        ParseIntErrorKind::Empty => "cannot parse integer from empty string"@,
        ParseIntErrorKind::InvalidDigit => "invalid digit found in string"@,
        ParseIntErrorKind::PosOverflow => "number too large to fit in target type"@,
        ParseIntErrorKind::NegOverflow => "number too small to fit in target type"@,
    }
}

/// The value of `c` as a digit of base `radix` (10 or 16, letters in either
/// case), or -1 when it is not one.
pub open spec fn digit_value(c: char, radix: int) -> int {
    let v = if '0' <= c <= '9' {
        c as int - '0' as int
    } else if 'a' <= c <= 'z' {
        c as int - 'a' as int + 10
    } else if 'A' <= c <= 'Z' {
        c as int - 'A' as int + 10
    } else {
        -1
    };
    if v < radix {
        v
    } else {
        -1
    }
}

/// Reads `digits` after the value `acc` read so far, in base `radix`, the
/// number growing away from zero (downwards when `negative`) within
/// [min, max]: the first character that is not a digit is an error, and so
/// is the first digit that takes the number out of range.
pub open spec fn read_digits(digits: Seq<char>, acc: int, radix: int, negative: bool, min: int, max: int) -> Result<
    int,
    ParseIntErrorKind,
>
    decreases digits.len(),
{
    if digits.len() == 0 {
        Ok(acc)
    } else {
        let d = digit_value(digits[0], radix);
        if d < 0 {
            Err(ParseIntErrorKind::InvalidDigit)
        } else if negative && acc * radix - d < min {
            Err(ParseIntErrorKind::NegOverflow)
        } else if !negative && acc * radix + d > max {
            Err(ParseIntErrorKind::PosOverflow)
        } else {
            read_digits(
                digits.drop_first(),
                if negative {
                    acc * radix - d
                } else {
                    acc * radix + d
                },
                radix,
                negative,
                min,
                max,
            )
        }
    }
}

/// The number written in `s` in base `radix`, within [min, max]: an
/// optional `+` (or `-` when `signed`) followed by digits.
pub open spec fn read_number(s: Seq<char>, radix: int, signed: bool, min: int, max: int) -> Result<
    int,
    ParseIntErrorKind,
> {
    if s.len() == 0 {
        Err(ParseIntErrorKind::Empty)
    } else if s.len() == 1 && (s[0] == '+' || s[0] == '-') {
        Err(ParseIntErrorKind::InvalidDigit)
    } else if s[0] == '+' {
        read_digits(s.drop_first(), 0, radix, false, min, max)
    } else if s[0] == '-' && signed {
        read_digits(s.drop_first(), 0, radix, true, min, max)
    } else {
        read_digits(s, 0, radix, false, min, max)
    }
}

/// The 16-bit number written in hexadecimal in `s`.
pub open spec fn hex_u16_value(s: Seq<char>) -> Result<int, ParseIntErrorKind> {
    read_number(s, 16, false, 0, 0xFFFF)
}

/// The signed 32-bit number written in decimal in `s`.
pub open spec fn decimal_i32_value(s: Seq<char>) -> Result<int, ParseIntErrorKind> {
    read_number(s, 10, true, i32::MIN as int, i32::MAX as int)
}

/// The value of `c` as a digit of base `radix`, or -1.
fn char_digit(c: char, radix: u32) -> (d: i64)
    requires
        radix == 10 || radix == 16,
    ensures
        d == digit_value(c, radix as int),
{
    let v: i64 = if '0' <= c && c <= '9' {
        (c as u32 - '0' as u32) as i64
    } else if 'a' <= c && c <= 'z' {
        (c as u32 - 'a' as u32) as i64 + 10
    } else if 'A' <= c && c <= 'Z' {
        (c as u32 - 'A' as u32) as i64 + 10
    } else {
        -1
    };
    if v < radix as i64 {
        v
    } else {
        -1
    }
}

/// Reads the digits of `s` from position `start` on (see `read_digits`).
fn read_digits_from(s: &str, start: usize, radix: u32, negative: bool, min: i64, max: i64) -> (r: Result<i64, ParseIntErrorKind>)
    requires
        start <= s@.len(),
        radix == 10 || radix == 16,
        -0x1_0000_0000 <= min <= 0 <= max <= 0x1_0000_0000,
    ensures
        r matches Ok(v) ==> read_digits(s@.skip(start as int), 0, radix as int, negative, min as int, max as int) == Ok::<int, ParseIntErrorKind>(v as int),
        r matches Err(k) ==> read_digits(s@.skip(start as int), 0, radix as int, negative, min as int, max as int) == Err::<int, ParseIntErrorKind>(k),
{
    let len = s.unicode_len();
    let mut i = start;
    let mut acc: i64 = 0;
    while i < len
        invariant
            len == s@.len(),
            start <= i <= len,
            radix == 10 || radix == 16,
            -0x1_0000_0000 <= min <= 0 <= max <= 0x1_0000_0000,
            negative ==> min <= acc <= 0,
            !negative ==> 0 <= acc <= max,
            read_digits(s@.skip(start as int), 0, radix as int, negative, min as int, max as int)
                == read_digits(s@.skip(i as int), acc as int, radix as int, negative, min as int, max as int),
        decreases len - i,
    {
        let c = s.get_char(i);
        let ghost rest = s@.skip(i as int);
        assert(rest[0] == c);
        assert(rest.drop_first() =~= s@.skip(i + 1));
        let d = char_digit(c, radix);
        if d < 0 {
            return Err(ParseIntErrorKind::InvalidDigit);
        }
        assert(negative ==> acc * radix <= 0) by (nonlinear_arith)
            requires
                negative ==> acc <= 0,
                radix >= 0,
        ;
        assert(!negative ==> acc * radix >= 0) by (nonlinear_arith)
            requires
                !negative ==> acc >= 0,
                radix >= 0,
        ;
        assert(-0x10_0000_0000 <= acc * radix <= 0x10_0000_0000) by (nonlinear_arith)
            requires
                -0x1_0000_0000 <= acc <= 0x1_0000_0000,
                radix <= 16,
                radix >= 0,
        ;
        if negative {
            let next = acc * radix as i64 - d;
            if next < min {
                return Err(ParseIntErrorKind::NegOverflow);
            }
            acc = next;
        } else {
            let next = acc * radix as i64 + d;
            if next > max {
                return Err(ParseIntErrorKind::PosOverflow);
            }
            acc = next;
        }
        i = i + 1;
    }
    assert(s@.skip(i as int).len() == 0);
    Ok(acc)
}

/// Reads a number written in `s` (see `read_number`).
fn read_number_in(s: &str, radix: u32, signed: bool, min: i64, max: i64) -> (r: Result<i64, ParseIntErrorKind>)
    requires
        radix == 10 || radix == 16,
        -0x1_0000_0000 <= min <= 0 <= max <= 0x1_0000_0000,
    ensures
        r matches Ok(v) ==> read_number(s@, radix as int, signed, min as int, max as int) == Ok::<int, ParseIntErrorKind>(v as int),
        r matches Err(k) ==> read_number(s@, radix as int, signed, min as int, max as int) == Err::<int, ParseIntErrorKind>(k),
{
    let len = s.unicode_len();
    if len == 0 {
        return Err(ParseIntErrorKind::Empty);
    }
    let first = s.get_char(0);
    if len == 1 && (first == '+' || first == '-') {
        return Err(ParseIntErrorKind::InvalidDigit);
    }
    assert(s@.drop_first() =~= s@.skip(1));
    assert(s@ =~= s@.skip(0));
    if first == '+' {
        read_digits_from(s, 1, radix, false, min, max)
    } else if first == '-' && signed {
        read_digits_from(s, 1, radix, true, min, max)
    } else {
        read_digits_from(s, 0, radix, false, min, max)
    }
}

/// Reads a 16-bit number written in hexadecimal, as `u16::from_str_radix`
/// with base 16 does.
pub fn parse_hex_u16(s: &str) -> (r: Result<u16, ParseIntErrorKind>)
    ensures
        r matches Ok(v) ==> hex_u16_value(s@) == Ok::<int, ParseIntErrorKind>(v as int),
        r matches Err(k) ==> hex_u16_value(s@) == Err::<int, ParseIntErrorKind>(k),
{
    match read_number_in(s, 16, false, 0, 0xFFFF) {
        Ok(v) => {
            proof {
                lemma_read_number_in_range(s@, 16, false, 0, 0xFFFF);
            }
            Ok(v as u16)
        },
        Err(k) => Err(k),
    }
}

/// Reads a signed 32-bit number written in decimal, as `str::parse::<i32>` does.
pub fn parse_decimal_i32(s: &str) -> (r: Result<i32, ParseIntErrorKind>)
    ensures
        r matches Ok(v) ==> decimal_i32_value(s@) == Ok::<int, ParseIntErrorKind>(v as int),
        r matches Err(k) ==> decimal_i32_value(s@) == Err::<int, ParseIntErrorKind>(k),
{
    match read_number_in(s, 10, true, i32::MIN as i64, i32::MAX as i64) {
        Ok(v) => {
            proof {
                lemma_read_number_in_range(s@, 10, true, i32::MIN as int, i32::MAX as int);
            }
            Ok(v as i32)
        },
        Err(k) => Err(k),
    }
}

/// A number read downwards from `acc` stays within [min, 0].
proof fn lemma_read_digits_down(digits: Seq<char>, acc: int, radix: int, min: int, max: int)
    requires
        min <= acc <= 0,
        0 <= radix,
    ensures
        read_digits(digits, acc, radix, true, min, max) matches Ok(v) ==> min <= v <= 0,
    decreases digits.len(),
{
    if digits.len() > 0 {
        let d = digit_value(digits[0], radix);
        if d >= 0 && acc * radix - d >= min {
            assert(acc * radix <= 0) by (nonlinear_arith)
                requires
                    acc <= 0,
                    0 <= radix,
            ;
            lemma_read_digits_down(digits.drop_first(), acc * radix - d, radix, min, max);
        }
    }
}

/// A number read upwards from `acc` stays within [0, max].
proof fn lemma_read_digits_up(digits: Seq<char>, acc: int, radix: int, min: int, max: int)
    requires
        0 <= acc <= max,
        0 <= radix,
    ensures
        read_digits(digits, acc, radix, false, min, max) matches Ok(v) ==> 0 <= v <= max,
    decreases digits.len(),
{
    if digits.len() > 0 {
        let d = digit_value(digits[0], radix);
        if d >= 0 && acc * radix + d <= max {
            assert(acc * radix >= 0) by (nonlinear_arith)
                requires
                    acc >= 0,
                    0 <= radix,
            ;
            lemma_read_digits_up(digits.drop_first(), acc * radix + d, radix, min, max);
        }
    }
}

/// A number read stays within [min, max] when 0 is.
proof fn lemma_read_number_in_range(s: Seq<char>, radix: int, signed: bool, min: int, max: int)
    requires
        min <= 0 <= max,
        0 <= radix,
    ensures
        read_number(s, radix, signed, min, max) matches Ok(v) ==> min <= v <= max,
{
    if s.len() > 0 {
        lemma_read_digits_up(s.drop_first(), 0, radix, min, max);
        lemma_read_digits_down(s.drop_first(), 0, radix, min, max);
        lemma_read_digits_up(s, 0, radix, min, max);
    }
}

/// A register the `print` command shows.
#[derive(Debug, Clone, Copy, PartialEq, Eq, Structural)]
pub enum Register {
    A,
    B,
    C,
    D,
    E,
    H,
    L,
    BC,
    DE,
    HL,
    SP,
}

/// A command of the debugger's prompt.
#[derive(Debug, Clone, Copy, PartialEq, Eq, Structural)]
pub enum Command {
    /// An empty line: run one step.
    Step,
    /// Show the list of commands.
    Help,
    /// Quit the debugger.
    Exit,
    /// Show `count` instructions from the program counter on.
    List { count: i32 },
    /// Show the value of a register.
    Print { register: Register },
    /// Show the flags.
    Flags,
    /// Run the current instruction.
    Next,
    /// Run until the next breakpoint.
    Continue,
    /// Place a breakpoint.
    Break { address: u16 },
    /// Remove a breakpoint.
    Remove { address: u16 },
    /// Write the tiles of video memory to an image file.
    Dump,
    /// Show the background map.
    Tilemap,
}

/// Why a line is not a command.
#[derive(Debug, Clone, Copy, PartialEq, Eq, Structural)]
pub enum CommandError {
    /// The number given is not one.
    InvalidNumber(ParseIntErrorKind),
    /// `print` without a register name.
    MissingRegister,
    /// `print` with a name that is not a register's.
    UnknownRegister,
    /// `break` or `remove` without an address.
    MissingAddress,
    /// The first word is not a command.
    UnknownCommand,
}

/// The register named `name`.
pub open spec fn register_named(name: Seq<char>) -> Option<Register> {
    if name == "a"@ {
        Some(Register::A)
    } else if name == "b"@ {
        Some(Register::B)
    } else if name == "c"@ {
        Some(Register::C)
    } else if name == "d"@ {
        Some(Register::D)
    } else if name == "e"@ {
        Some(Register::E)
    } else if name == "h"@ {
        Some(Register::H)
    } else if name == "l"@ {
        Some(Register::L)
    } else if name == "bc"@ {
        Some(Register::BC)
    } else if name == "de"@ {
        Some(Register::DE)
    } else if name == "hl"@ {
        Some(Register::HL)
    } else if name == "sp"@ {
        Some(Register::SP)
    } else {
        None
    }
}

/// The address argument of `break` and `remove`, in hexadecimal.
pub open spec fn address_argument(words: Seq<Seq<char>>) -> Result<u16, CommandError> {
    if words.len() < 2 {
        Err(CommandError::MissingAddress)
    } else {
        match hex_u16_value(words[1]) {
            Ok(v) => Ok(v as u16),
            Err(k) => Err(CommandError::InvalidNumber(k)),
        }
    }
}

/// The command written as `words` (the words of a line): its first word or
/// the first word's short form, then its argument.
pub open spec fn command_of(words: Seq<Seq<char>>) -> Result<Command, CommandError> {
    if words.len() == 0 {
        Ok(Command::Step)
    } else {
        let w = words[0];
        if w == "help"@ || w == "h"@ {
            Ok(Command::Help)
        } else if w == "exit"@ {
            Ok(Command::Exit)
        } else if w == "list"@ || w == "l"@ {
            if words.len() < 2 {
                Ok(Command::List { count: 5 })
            } else {
                match decimal_i32_value(words[1]) {
                    Ok(v) => Ok(Command::List { count: v as i32 }),
                    Err(k) => Err(CommandError::InvalidNumber(k)),
                }
            }
        } else if w == "print"@ || w == "p"@ {
            if words.len() < 2 {
                Err(CommandError::MissingRegister)
            } else {
                match register_named(words[1]) {
                    Some(r) => Ok(Command::Print { register: r }),
                    None => Err(CommandError::UnknownRegister),
                }
            }
        } else if w == "flags"@ || w == "f"@ {
            Ok(Command::Flags)
        } else if w == "next"@ || w == "n"@ {
            Ok(Command::Next)
        } else if w == "continue"@ || w == "c"@ {
            Ok(Command::Continue)
        } else if w == "break"@ || w == "b"@ {
            match address_argument(words) {
                Ok(a) => Ok(Command::Break { address: a }),
                Err(e) => Err(e),
            }
        } else if w == "remove"@ || w == "r"@ {
            match address_argument(words) {
                Ok(a) => Ok(Command::Remove { address: a }),
                Err(e) => Err(e),
            }
        } else if w == "dump"@ {
            Ok(Command::Dump)
        } else if w == "tilemap"@ {
            Ok(Command::Tilemap)
        } else {
            Err(CommandError::UnknownCommand)
        }
    }
}

/// The texts of the words.
pub open spec fn words_text(words: Seq<&str>) -> Seq<Seq<char>> {
    words.map_values(|w: &str| w@)
}

/// Whether two texts are equal.
fn same_text(a: &str, b: &str) -> (r: bool)
    ensures
        r == (a@ == b@),
{
    let n = a.unicode_len();
    if n != b.unicode_len() {
        return false;
    }
    let mut i: usize = 0;
    while i < n
        invariant
            n == a@.len(),
            n == b@.len(),
            i <= n,
            forall|j: int| 0 <= j < i ==> a@[j] == b@[j],
        decreases n - i,
    {
        if a.get_char(i) != b.get_char(i) {
            return false;
        }
        i = i + 1;
    }
    assert(a@ =~= b@);
    true
}

/// The register named `name`.
fn parse_register(name: &str) -> (r: Option<Register>)
    ensures
        r == register_named(name@),
{
    if same_text(name, "a") {
        Some(Register::A)
    } else if same_text(name, "b") {
        Some(Register::B)
    } else if same_text(name, "c") {
        Some(Register::C)
    } else if same_text(name, "d") {
        Some(Register::D)
    } else if same_text(name, "e") {
        Some(Register::E)
    } else if same_text(name, "h") {
        Some(Register::H)
    } else if same_text(name, "l") {
        Some(Register::L)
    } else if same_text(name, "bc") {
        Some(Register::BC)
    } else if same_text(name, "de") {
        Some(Register::DE)
    } else if same_text(name, "hl") {
        Some(Register::HL)
    } else if same_text(name, "sp") {
        Some(Register::SP)
    } else {
        None
    }
}

/// The address argument of `break` and `remove`.
fn parse_address_argument(words: &Vec<&str>) -> (r: Result<u16, CommandError>)
    ensures
        r == address_argument(words_text(words@)),
{
    if words.len() < 2 {
        return Err(CommandError::MissingAddress);
    }
    match parse_hex_u16(words[1]) {
        Ok(v) => Ok(v),
        Err(k) => Err(CommandError::InvalidNumber(k)),
    }
}

/// Reads a line of the debugger's prompt, cut into its words.
pub fn parse_command(words: &Vec<&str>) -> (r: Result<Command, CommandError>)
    ensures
        r == command_of(words_text(words@)),
{
    let ghost t = words_text(words@);
    if words.len() == 0 {
        return Ok(Command::Step);
    }
    let w = words[0];
    assert(t[0] == w@);
    if same_text(w, "help") || same_text(w, "h") {
        Ok(Command::Help)
    } else if same_text(w, "exit") {
        Ok(Command::Exit)
    } else if same_text(w, "list") || same_text(w, "l") {
        if words.len() < 2 {
            Ok(Command::List { count: 5 })
        } else {
            assert(t[1] == words[1]@);
            match parse_decimal_i32(words[1]) {
                Ok(v) => Ok(Command::List { count: v }),
                Err(k) => Err(CommandError::InvalidNumber(k)),
            }
        }
    } else if same_text(w, "print") || same_text(w, "p") {
        if words.len() < 2 {
            Err(CommandError::MissingRegister)
        } else {
            assert(t[1] == words[1]@);
            match parse_register(words[1]) {
                Some(r) => Ok(Command::Print { register: r }),
                None => Err(CommandError::UnknownRegister),
            }
        }
    } else if same_text(w, "flags") || same_text(w, "f") {
        Ok(Command::Flags)
    } else if same_text(w, "next") || same_text(w, "n") {
        Ok(Command::Next)
    } else if same_text(w, "continue") || same_text(w, "c") {
        Ok(Command::Continue)
    } else if same_text(w, "break") || same_text(w, "b") {
        match parse_address_argument(words) {
            Ok(a) => Ok(Command::Break { address: a }),
            Err(e) => Err(e),
        }
    } else if same_text(w, "remove") || same_text(w, "r") {
        match parse_address_argument(words) {
            Ok(a) => Ok(Command::Remove { address: a }),
            Err(e) => Err(e),
        }
    } else if same_text(w, "dump") {
        Ok(Command::Dump)
    } else if same_text(w, "tilemap") {
        Ok(Command::Tilemap)
    } else {
        Err(CommandError::UnknownCommand)
    }
}

} // verus!
