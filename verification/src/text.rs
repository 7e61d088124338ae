//! Verified plain-text rendering of numbers.
//!
//! The library never panics and never calls a formatting macro from verified
//! code, so the few human-readable strings it produces (device descriptions,
//! error messages) are built here: decimal and hexadecimal renderings with
//! exact contracts over sequence-of-character specifications.

use vstd::prelude::*;

verus! {

/// The decimal digit character for a value below ten.
pub open spec fn spec_dec_digit(d: nat) -> char {
    if d == 0 {
        '0'
    } else if d == 1 {
        '1'
    } else if d == 2 {
        '2'
    } else if d == 3 {
        '3'
    } else if d == 4 {
        '4'
    } else if d == 5 {
        '5'
    } else if d == 6 {
        '6'
    } else if d == 7 {
        '7'
    } else if d == 8 {
        '8'
    } else {
        '9'
    }
}

/// The decimal rendering of a number, most significant digit first.
pub open spec fn spec_dec(n: nat) -> Seq<char>
    decreases n,
{
    if n < 10 {
        seq![spec_dec_digit(n)]
    } else {
        spec_dec(n / 10).push(spec_dec_digit(n % 10))
    }
}

/// The uppercase hexadecimal digit character for a value below sixteen.
pub open spec fn spec_hex_digit(d: nat) -> char {
    if d < 10 {
        spec_dec_digit(d)
    } else if d == 10 {
        'A'
    } else if d == 11 {
        'B'
    } else if d == 12 {
        'C'
    } else if d == 13 {
        'D'
    } else if d == 14 {
        'E'
    } else {
        'F'
    }
}

/// The uppercase hexadecimal rendering of a number, without padding.
pub open spec fn spec_hex(n: nat) -> Seq<char>
    decreases n,
{
    if n < 16 {
        seq![spec_hex_digit(n)]
    } else {
        spec_hex(n / 16).push(spec_hex_digit(n % 16))
    }
}

/// The uppercase hexadecimal rendering padded with zeros to four digits,
/// as a vendor identifier is usually shown.
pub open spec fn spec_hex4(n: nat) -> Seq<char> {
    if n <= 0xFFFF {
        seq![
            spec_hex_digit(n / 0x1000 % 16),
            spec_hex_digit(n / 0x100 % 16),
            spec_hex_digit(n / 0x10 % 16),
            spec_hex_digit(n % 16),
        ]
    } else {
        spec_hex(n)
    }
}

/// Relies on `std::string::String::push`: appends the character to the end
/// of the string.
#[verifier::external_body]
pub(crate) fn push_char(s: &mut String, c: char)
    ensures
        final (s)@ == old(s)@.push(c),
{
    s.push(c);
}

/// Returns the decimal digit character for a value below ten.
fn dec_digit(d: u64) -> (c: char)
    requires
        d < 10,
    ensures
        c == spec_dec_digit(d as nat),
{
    if d == 0 {
        '0'
    } else if d == 1 {
        '1'
    } else if d == 2 {
        '2'
    } else if d == 3 {
        '3'
    } else if d == 4 {
        '4'
    } else if d == 5 {
        '5'
    } else if d == 6 {
        '6'
    } else if d == 7 {
        '7'
    } else if d == 8 {
        '8'
    } else {
        '9'
    }
}

/// Returns the uppercase hexadecimal digit character for a value below
/// sixteen.
fn hex_digit(d: u64) -> (c: char)
    requires
        d < 16,
    ensures
        c == spec_hex_digit(d as nat),
{
    if d < 10 {
        dec_digit(d)
    } else if d == 10 {
        'A'
    } else if d == 11 {
        'B'
    } else if d == 12 {
        'C'
    } else if d == 13 {
        'D'
    } else if d == 14 {
        'E'
    } else {
        'F'
    }
}

/// Renders a number in decimal.
pub fn dec_string(n: u64) -> (s: String)
    ensures
        s@ == spec_dec(n as nat),
    decreases n,
{
    if n < 10 {
        let mut s = String::new();
        push_char(&mut s, dec_digit(n));
        s
    } else {
        let mut s = dec_string(n / 10);
        push_char(&mut s, dec_digit(n % 10));
        s
    }
}

/// Renders a number in uppercase hexadecimal, without padding.
pub fn hex_string(n: u64) -> (s: String)
    ensures
        s@ == spec_hex(n as nat),
    decreases n,
{
    if n < 16 {
        let mut s = String::new();
        push_char(&mut s, hex_digit(n));
        s
    } else {
        let mut s = hex_string(n / 16);
        push_char(&mut s, hex_digit(n % 16));
        s
    }
}

/// Renders a number in uppercase hexadecimal, zero-padded to four digits.
pub fn hex4_string(n: u32) -> (s: String)
    ensures
        s@ == spec_hex4(n as nat),
{
    if n <= 0xFFFF {
        let w = n as u64;
        let mut s = String::new();
        push_char(&mut s, hex_digit(w / 0x1000 % 16));
        push_char(&mut s, hex_digit(w / 0x100 % 16));
        push_char(&mut s, hex_digit(w / 0x10 % 16));
        push_char(&mut s, hex_digit(w % 16));
        proof {
            assert(s@ =~= spec_hex4(n as nat));
        }
        s
    } else {
        hex_string(n as u64)
    }
}

} // verus!
