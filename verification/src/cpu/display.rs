//! A one-line, human-readable picture of the registers.

use vstd::prelude::*;
use vstd::string::StringExecFns;
use crate::cpu::Cpu;
use crate::model::CpuView;

verus! {

/// The character for the hexadecimal digit `n`, in lower case.
pub open spec fn hex_digit(n: int) -> char {
    if n == 0 {
        '0'
    } else if n == 1 {
        '1'
    } else if n == 2 {
        '2'
    } else if n == 3 {
        '3'
    } else if n == 4 {
        '4'
    } else if n == 5 {
        '5'
    } else if n == 6 {
        '6'
    } else if n == 7 {
        '7'
    } else if n == 8 {
        '8'
    } else if n == 9 {
        '9'
    } else if n == 10 {
        'a'
    } else if n == 11 {
        'b'
    } else if n == 12 {
        'c'
    } else if n == 13 {
        'd'
    } else if n == 14 {
        'e'
    } else {
        'f'
    }
}

/// `n` in hexadecimal, with as many digits as it needs and at least one.
pub open spec fn hex_digits(n: nat) -> Seq<char>
    decreases n,
{
    if n < 16 {
        seq![hex_digit(n as int)]
    } else {
        hex_digits(n / 16).push(hex_digit((n % 16) as int))
    }
}

/// The lowest `width` bits of `n` in binary, highest bit first.
pub open spec fn binary_digits(n: nat, width: nat) -> Seq<char>
    decreases width,
{
    if width == 0 {
        Seq::empty()
    } else {
        binary_digits(n / 2, (width - 1) as nat).push(
            if n % 2 == 1 {
                '1'
            } else {
                '0'
            },
        )
    }
}

/// The registers of `s` in one line: accumulator and index registers in
/// hexadecimal, the status byte as eight binary digits, program counter
/// and stack pointer in hexadecimal.
pub open spec fn snapshot_text(s: CpuView) -> Seq<char> {
    "A: "@ + hex_digits(s.a as nat) + ", X: "@ + hex_digits(s.x as nat) + ", Y: "@ + hex_digits(
        s.y as nat,
    ) + ", S: "@ + binary_digits(s.p as nat, 8) + ", PC: "@ + hex_digits(s.pc as nat) + ", SP: "@
        + hex_digits(s.sp as nat)
}

/// The hexadecimal digit `n` as a string.
fn hex_digit_str(n: u16) -> (digit: &'static str)
    requires
        n < 16,
    ensures
        digit@ == seq![hex_digit(n as int)],
{
    proof {
        reveal_strlit("0");
        reveal_strlit("1");
        reveal_strlit("2");
        reveal_strlit("3");
        reveal_strlit("4");
        reveal_strlit("5");
        reveal_strlit("6");
        reveal_strlit("7");
        reveal_strlit("8");
        reveal_strlit("9");
        reveal_strlit("a");
        reveal_strlit("b");
        reveal_strlit("c");
        reveal_strlit("d");
        reveal_strlit("e");
        reveal_strlit("f");
    }
    let digit = if n == 0 {
        "0"
    } else if n == 1 {
        "1"
    } else if n == 2 {
        "2"
    } else if n == 3 {
        "3"
    } else if n == 4 {
        "4"
    } else if n == 5 {
        "5"
    } else if n == 6 {
        "6"
    } else if n == 7 {
        "7"
    } else if n == 8 {
        "8"
    } else if n == 9 {
        "9"
    } else if n == 10 {
        "a"
    } else if n == 11 {
        "b"
    } else if n == 12 {
        "c"
    } else if n == 13 {
        "d"
    } else if n == 14 {
        "e"
    } else {
        "f"
    };
    assert(digit@ =~= seq![hex_digit(n as int)]);
    digit
}

/// Append `n` in hexadecimal to `out`.
fn push_hex(out: &mut String, n: u16)
    ensures
        final(out)@ == old(out)@ + hex_digits(n as nat),
    decreases n,
{
    if n >= 16 {
        push_hex(out, n / 16);
    }
    out.append(hex_digit_str(n % 16));
    assert(out@ =~= old(out)@ + hex_digits(n as nat));
}

/// Append the lowest `width` bits of `n` in binary to `out`.
fn push_binary(out: &mut String, n: u8, width: u8)
    ensures
        final(out)@ == old(out)@ + binary_digits(n as nat, width as nat),
    decreases width,
{
    if width > 0 {
        push_binary(out, n / 2, width - 1);
        proof {
            reveal_strlit("1");
            reveal_strlit("0");
        }
        out.append(
            if n % 2 == 1 {
                "1"
            } else {
                "0"
            },
        );
    }
    assert(out@ =~= old(out)@ + binary_digits(n as nat, width as nat));
}

impl Cpu {
    /// The registers in one line, for a person to read.
    pub fn snapshot(&self) -> (text: String)
        ensures
            text@ == snapshot_text(self@),
    {
        let mut out = String::from_str("A: ");
        push_hex(&mut out, self.accumulator as u16);
        out.append(", X: ");
        push_hex(&mut out, self.x as u16);
        out.append(", Y: ");
        push_hex(&mut out, self.y as u16);
        out.append(", S: ");
        push_binary(&mut out, self.status.bits(), 8);
        out.append(", PC: ");
        push_hex(&mut out, self.pc);
        out.append(", SP: ");
        push_hex(&mut out, self.stack_pointer as u16);
        out
    }
}

} // verus!
