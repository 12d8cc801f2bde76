//! Plain-text rendering of numbers, used by the human-readable dumps.

use vstd::prelude::*;

use vstd::string::StringExecFns;

verus! {

/// The character for one digit value below 16.
pub open spec fn spec_digit_char(d: int) -> Seq<char> {
    if d == 0 {
        "0"@
    } else if d == 1 {
        "1"@
    } else if d == 2 {
        "2"@
    } else if d == 3 {
        "3"@
    } else if d == 4 {
        "4"@
    } else if d == 5 {
        "5"@
    } else if d == 6 {
        "6"@
    } else if d == 7 {
        "7"@
    } else if d == 8 {
        "8"@
    } else if d == 9 {
        "9"@
    } else if d == 10 {
        "a"@
    } else if d == 11 {
        "b"@
    } else if d == 12 {
        "c"@
    } else if d == 13 {
        "d"@
    } else if d == 14 {
        "e"@
    } else {
        "f"@
    }
}

/// The character for one digit value below 16.
pub fn digit_str(d: u64) -> (r: &'static str)
    requires
        d < 16,
    ensures
        r@ == spec_digit_char(d as int),
{
    match d {
        0 => "0",
        1 => "1",
        2 => "2",
        3 => "3",
        4 => "4",
        5 => "5",
        6 => "6",
        7 => "7",
        8 => "8",
        9 => "9",
        10 => "a",
        11 => "b",
        12 => "c",
        13 => "d",
        14 => "e",
        _ => "f",
    }
}

/// The decimal digits of `n`, most significant first.
pub open spec fn spec_decimal(n: int) -> Seq<char>
    decreases n,
{
    if n < 10 {
        spec_digit_char(n)
    } else {
        spec_decimal(n / 10) + spec_digit_char(n % 10)
    }
}

/// Render `n` in decimal.
pub fn decimal(n: u64) -> (r: String)
    ensures
        r@ == spec_decimal(n as int),
    decreases n,
{
    if n < 10 {
        let mut text = String::new();
        text.append(digit_str(n));
        return text;
    }
    let mut text = decimal(n / 10);
    text.append(digit_str(n % 10));
    text
}

/// The low `digits` hexadecimal digits of `v`, most significant first.
pub open spec fn spec_hex_fixed(v: int, digits: int) -> Seq<char>
    decreases digits,
{
    if digits <= 0 {
        Seq::empty()
    } else {
        spec_hex_fixed(v / 16, digits - 1) + spec_digit_char(v % 16)
    }
}

/// Render the low `digits` hexadecimal digits of `v`, zero-padded, most
/// significant first.
pub fn hex_fixed(v: u64, digits: u64) -> (r: String)
    ensures
        r@ == spec_hex_fixed(v as int, digits as int),
    decreases digits,
{
    if digits == 0 {
        let text = String::new();
        proof {
            assert(text@ =~= spec_hex_fixed(v as int, 0));
        }
        return text;
    }
    let mut text = hex_fixed(v / 16, digits - 1);
    text.append(digit_str(v % 16));
    text
}

/// An address as `0x` plus 16 hexadecimal digits.
pub open spec fn spec_hex_addr(v: int) -> Seq<char> {
    "0x"@ + spec_hex_fixed(v, 16)
}

/// Render an address as `0x` plus 16 hexadecimal digits.
pub fn hex_addr(v: usize) -> (r: String)
    ensures
        r@ == spec_hex_addr(v as int),
{
    let mut text = String::new();
    text.append("0x");
    let rest = hex_fixed(v as u64, 16);
    text.append(rest.as_str());
    text
}

} // verus!
