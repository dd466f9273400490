//! Small verified text helpers: decimal and hexadecimal rendering, string
//! comparison and concatenation.

use vstd::prelude::*;
use vstd::string::*;

verus! {

/// The ASCII digit for `d` (`d < 10`).
pub open spec fn digit_char(d: nat) -> char {
    (48 + d) as char
}

/// The upper-case hexadecimal digit for `d` (`d < 16`).
pub open spec fn hex_char(d: nat) -> char {
    if d < 10 { (48 + d) as char } else { (55 + d) as char }
}

/// Decimal rendering of a natural number, without leading zeros.
pub open spec fn decimal(n: nat) -> Seq<char>
    decreases n,
{
    if n < 10 {
        seq![digit_char(n)]
    } else {
        decimal(n / 10).push(digit_char(n % 10))
    }
}

/// Decimal rendering of a signed number, with a leading `-` when negative.
pub open spec fn signed_decimal(n: int) -> Seq<char> {
    if n < 0 { seq!['-'] + decimal((-n) as nat) } else { decimal(n as nat) }
}

/// Two upper-case hexadecimal digits of a byte (Rust's `{:02X}`).
pub open spec fn hex_byte(b: u8) -> Seq<char> {
    seq![hex_char((b / 16) as nat), hex_char((b % 16) as nat)]
}

/// The one-character string of a decimal digit.
pub fn digit_str(d: u64) -> (s: &'static str)
    requires
        d < 10,
    ensures
        s@ == seq![digit_char(d as nat)],
{
    match d {
        0 => { proof { reveal_strlit("0"); } "0" },
        1 => { proof { reveal_strlit("1"); } "1" },
        2 => { proof { reveal_strlit("2"); } "2" },
        3 => { proof { reveal_strlit("3"); } "3" },
        4 => { proof { reveal_strlit("4"); } "4" },
        5 => { proof { reveal_strlit("5"); } "5" },
        6 => { proof { reveal_strlit("6"); } "6" },
        7 => { proof { reveal_strlit("7"); } "7" },
        8 => { proof { reveal_strlit("8"); } "8" },
        _ => { proof { reveal_strlit("9"); } "9" },
    }
}

/// The one-character string of an upper-case hexadecimal digit.
pub fn hex_digit_str(d: u8) -> (s: &'static str)
    requires
        d < 16,
    ensures
        s@ == seq![hex_char(d as nat)],
{
    if d < 10 {
        digit_str(d as u64)
    } else {
        match d {
            10 => { proof { reveal_strlit("A"); } "A" },
            11 => { proof { reveal_strlit("B"); } "B" },
            12 => { proof { reveal_strlit("C"); } "C" },
            13 => { proof { reveal_strlit("D"); } "D" },
            14 => { proof { reveal_strlit("E"); } "E" },
            _ => { proof { reveal_strlit("F"); } "F" },
        }
    }
}

/// Decimal rendering of `n` (Rust's `{}` for unsigned integers).
pub fn u64_decimal(n: u64) -> (s: String)
    ensures
        s@ == decimal(n as nat),
    decreases n,
{
    if n < 10 {
        String::from_str(digit_str(n))
    } else {
        let mut s = u64_decimal(n / 10);
        s.append(digit_str(n % 10));
        s
    }
}

/// Decimal rendering of `n` (Rust's `{}` for signed integers).
pub fn i64_decimal(n: i64) -> (s: String)
    ensures
        s@ == signed_decimal(n as int),
{
    if n < 0 {
        let magnitude: u64 = if n == i64::MIN { 9223372036854775808u64 } else { (-n) as u64 };
        let digits = u64_decimal(magnitude);
        let mut s = String::from_str("-");
        proof { reveal_strlit("-"); }
        s.append(digits.as_str());
        s
    } else {
        u64_decimal(n as u64)
    }
}

/// Two upper-case hexadecimal digits of `b` (Rust's `{:02X}`).
pub fn byte_hex(b: u8) -> (s: String)
    ensures
        s@ == hex_byte(b),
{
    let mut s = String::from_str(hex_digit_str(b / 16));
    s.append(hex_digit_str(b % 16));
    s
}

/// Whether two strings hold the same characters.
pub fn str_eq(a: &str, b: &str) -> (r: bool)
    ensures
        r == (a@ == b@),
{
    a.to_owned() == b.to_owned()
}

/// `a` followed by `b`.
pub fn concat2(a: &str, b: &str) -> (s: String)
    ensures
        s@ == a@ + b@,
{
    let mut s = a.to_owned();
    s.append(b);
    s
}

/// `a`, then `b`, then `c`.
pub fn concat3(a: &str, b: &str, c: &str) -> (s: String)
    ensures
        s@ == a@ + b@ + c@,
{
    let mut s = a.to_owned();
    s.append(b);
    s.append(c);
    s
}

} // verus!
