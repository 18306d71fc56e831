use vstd::prelude::*;

verus! {

// Text of numbers, as the debugger and the disassembly show them.

/// The digit `d` (below 16), in upper case.
pub open spec fn hex_digit(d: int) -> char {
    if d == 0 {
        '0'
    } else if d == 1 {
        '1'
    } else if d == 2 {
        '2'
    } else if d == 3 {
        '3'
    } else if d == 4 {
        '4'
    } else if d == 5 {
        '5'
    } else if d == 6 {
        '6'
    } else if d == 7 {
        '7'
    } else if d == 8 {
        '8'
    } else if d == 9 {
        '9'
    } else if d == 10 {
        'A'
    } else if d == 11 {
        'B'
    } else if d == 12 {
        'C'
    } else if d == 13 {
        'D'
    } else if d == 14 {
        'E'
    } else {
        'F'
    }
}

/// The last `n` hexadecimal digits of `v`, most significant first.
pub open spec fn hex_digits(v: nat, n: nat) -> Seq<char>
    decreases n,
{
    if n == 0 {
        Seq::empty()
    } else {
        hex_digits(v / 16, (n - 1) as nat).push(hex_digit((v % 16) as int))
    }
}

/// A byte as `0x` and two upper-case hexadecimal digits.
pub open spec fn hex_u8_text(v: u8) -> Seq<char> {
    seq!['0', 'x'] + hex_digits(v as nat, 2)
}

/// A word as `0x` and four upper-case hexadecimal digits.
pub open spec fn hex_u16_text(v: u16) -> Seq<char> {
    seq!['0', 'x'] + hex_digits(v as nat, 4)
}

/// The decimal digits of `v`, with no leading zero.
pub open spec fn decimal_text(v: nat) -> Seq<char>
    decreases v,
{
    if v < 10 {
        seq![hex_digit(v as int)]
    } else {
        decimal_text(v / 10).push(hex_digit((v % 10) as int))
    }
}

/// A signed byte in decimal, with a minus sign when it is negative.
pub open spec fn i8_text(v: i8) -> Seq<char> {
    if v < 0 {
        seq!['-'] + decimal_text((-v) as nat)
    } else {
        decimal_text(v as nat)
    }
}

/// The one-character text of digit `d`.
fn digit_str(d: u8) -> (s: &'static str)
    requires
        d < 16,
    ensures
        s@ == seq![hex_digit(d as int)],
{
    match d {
        0 => {
            proof {
                reveal_strlit("0");
            }
            "0"
        },
        1 => {
            proof {
                reveal_strlit("1");
            }
            "1"
        },
        2 => {
            proof {
                reveal_strlit("2");
            }
            "2"
        },
        3 => {
            proof {
                reveal_strlit("3");
            }
            "3"
        },
        4 => {
            proof {
                reveal_strlit("4");
            }
            "4"
        },
        5 => {
            proof {
                reveal_strlit("5");
            }
            "5"
        },
        6 => {
            proof {
                reveal_strlit("6");
            }
            "6"
        },
        7 => {
            proof {
                reveal_strlit("7");
            }
            "7"
        },
        8 => {
            proof {
                reveal_strlit("8");
            }
            "8"
        },
        9 => {
            proof {
                reveal_strlit("9");
            }
            "9"
        },
        10 => {
            proof {
                reveal_strlit("A");
            }
            "A"
        },
        11 => {
            proof {
                reveal_strlit("B");
            }
            "B"
        },
        12 => {
            proof {
                reveal_strlit("C");
            }
            "C"
        },
        13 => {
            proof {
                reveal_strlit("D");
            }
            "D"
        },
        14 => {
            proof {
                reveal_strlit("E");
            }
            "E"
        },
        _ => {
            proof {
                reveal_strlit("F");
            }
            "F"
        },
    }
}

/// Appends the `0x` prefix.
fn push_hex_prefix(s: &mut String)
    ensures
        final(s)@ == old(s)@ + seq!['0', 'x'],
{
    proof {
        reveal_strlit("0x");
    }
    s.append("0x");
}

/// Appends a byte as `0x` and two upper-case hexadecimal digits.
pub fn push_hex_u8(s: &mut String, v: u8)
    ensures
        final(s)@ == old(s)@ + hex_u8_text(v),
{
    push_hex_prefix(s);
    s.append(digit_str(v / 16));
    s.append(digit_str(v % 16));
    proof {
        reveal_with_fuel(hex_digits, 3);
        assert(hex_digits(v as nat, 2) =~= seq![hex_digit((v / 16) as int), hex_digit((v % 16) as int)]);
        assert(final(s)@ =~= old(s)@ + hex_u8_text(v));
    }
}

/// Appends a word as `0x` and four upper-case hexadecimal digits.
pub fn push_hex_u16(s: &mut String, v: u16)
    ensures
        final(s)@ == old(s)@ + hex_u16_text(v),
{
    push_hex_prefix(s);
    let d3 = v / 4096;
    let d2 = (v / 256) % 16;
    let d1 = (v / 16) % 16;
    let d0 = v % 16;
    s.append(digit_str(d3 as u8));
    s.append(digit_str(d2 as u8));
    s.append(digit_str(d1 as u8));
    s.append(digit_str(d0 as u8));
    proof {
        reveal_with_fuel(hex_digits, 5);
        let n = v as nat;
        assert(n / 16 / 16 == n / 256) by (nonlinear_arith);
        assert(n / 256 / 16 == n / 4096) by (nonlinear_arith);
        assert(n / 4096 < 16);
        assert(hex_digits(v as nat, 4) =~= seq![
            hex_digit(d3 as int),
            hex_digit(d2 as int),
            hex_digit(d1 as int),
            hex_digit(d0 as int),
        ]);
        assert(final(s)@ =~= old(s)@ + hex_u16_text(v));
    }
}

/// Appends a byte in decimal.
pub fn push_decimal_u8(s: &mut String, v: u8)
    ensures
        final(s)@ == old(s)@ + decimal_text(v as nat),
{
    proof {
        reveal_with_fuel(decimal_text, 3);
    }
    if v < 10 {
        s.append(digit_str(v));
        assert(final(s)@ =~= old(s)@ + decimal_text(v as nat));
    } else if v < 100 {
        s.append(digit_str(v / 10));
        s.append(digit_str(v % 10));
        assert(final(s)@ =~= old(s)@ + decimal_text(v as nat));
    } else {
        s.append(digit_str(v / 100));
        s.append(digit_str((v / 10) % 10));
        s.append(digit_str(v % 10));
        proof {
            let n = v as nat;
            assert(n / 10 / 10 == n / 100) by (nonlinear_arith);
            assert(decimal_text(n / 10) =~= seq![hex_digit((n / 100) as int), hex_digit(((n / 10) % 10) as int)]);
        }
        assert(final(s)@ =~= old(s)@ + decimal_text(v as nat));
    }
}

/// Appends a signed byte in decimal, with a minus sign when it is negative.
pub fn push_i8(s: &mut String, v: i8)
    ensures
        final(s)@ == old(s)@ + i8_text(v),
{
    if v < 0 {
        proof {
            reveal_strlit("-");
        }
        s.append("-");
        let magnitude: u8 = if v == i8::MIN {
            128
        } else {
            (-v) as u8
        };
        push_decimal_u8(s, magnitude);
        assert(final(s)@ =~= old(s)@ + i8_text(v));
    } else {
        push_decimal_u8(s, v as u8);
    }
}

} // verus!
