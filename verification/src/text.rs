//! Numbers as report text: digits in base 16, 10 and 2.

use vstd::prelude::*;
use crate::bits::bit;
use crate::bits::bit_of;

verus! {

/// `String::push` of the standard library: appends one character to the end
/// of the string and changes nothing else.
pub assume_specification[ String::push ](s: &mut String, ch: char)
    ensures
        final(s)@ == old(s)@.push(ch),
;

/// What a sequence of strings holds: the characters of each.
pub open spec fn views_of(texts: Seq<String>) -> Seq<Seq<char>> {
    Seq::new(texts.len(), |i: int| texts[i]@)
}

/// The upper-case hexadecimal digit for a number below 16.
pub open spec fn hex_digit(n: u8) -> char {
    if n < 10 {
        ('0' as u8 + n) as char
    } else {
        ('A' as u8 + (n - 10)) as char
    }
}

/// The decimal digit for a number below 10.
pub open spec fn decimal_digit(n: u8) -> char {
    ('0' as u8 + n) as char
}

/// A byte as two upper-case hexadecimal digits.
pub open spec fn hex_byte(value: u8) -> Seq<char> {
    seq![hex_digit(value / 16), hex_digit(value % 16)]
}

/// A 16-bit number as upper-case hexadecimal digits: as many as it needs, and
/// two at least.
pub open spec fn hex_short(n: int) -> Seq<char> {
    if n < 0x100 {
        hex_byte(n as u8)
    } else if n < 0x1000 {
        seq![hex_digit((n / 0x100) as u8)] + hex_byte((n % 0x100) as u8)
    } else {
        hex_byte((n / 0x100) as u8) + hex_byte((n % 0x100) as u8)
    }
}

/// The low `width` bits of a byte as binary digits, most significant first.
pub open spec fn binary_digits(value: u8, width: int) -> Seq<char> {
    Seq::new(width as nat, |i: int| decimal_digit(bit_of(value, (width - 1 - i) as u8)))
}

/// A natural number in decimal, without leading zeros.
pub open spec fn decimal(n: nat) -> Seq<char>
    decreases n,
{
    if n < 10 {
        seq![decimal_digit(n as u8)]
    } else {
        decimal(n / 10).push(decimal_digit((n % 10) as u8))
    }
}

/// Computes the upper-case hexadecimal digit for a number below 16.
pub(crate) fn hex_digit_char(n: u8) -> (c: char)
    requires
        n < 16,
    ensures
        c == hex_digit(n),
{
    if n < 10 {
        (0x30 + n) as char
    } else {
        (0x41 + (n - 10)) as char
    }
}

/// Computes the decimal digit for a number below 10.
pub(crate) fn decimal_digit_char(n: u8) -> (c: char)
    requires
        n < 10,
    ensures
        c == decimal_digit(n),
{
    (0x30 + n) as char
}

/// Appends a byte as two upper-case hexadecimal digits.
pub fn push_hex_byte(out: &mut String, value: u8)
    ensures
        final(out)@ == old(out)@ + hex_byte(value),
{
    out.push(hex_digit_char(value / 16));
    out.push(hex_digit_char(value % 16));
}

/// Appends a 16-bit number as upper-case hexadecimal digits: as many as it
/// needs, and two at least.
pub fn push_hex_short(out: &mut String, n: u16)
    ensures
        final(out)@ == old(out)@ + hex_short(n as int),
{
    if n < 0x100 {
        push_hex_byte(out, n as u8);
    } else if n < 0x1000 {
        out.push(hex_digit_char((n / 0x100) as u8));
        push_hex_byte(out, (n % 0x100) as u8);
    } else {
        push_hex_byte(out, (n / 0x100) as u8);
        push_hex_byte(out, (n % 0x100) as u8);
    }
}

/// Appends the low `width` bits of a byte as binary digits, most significant
/// first.
pub fn push_binary(out: &mut String, value: u8, width: u8)
    requires
        width <= 8,
    ensures
        final(out)@ == old(out)@ + binary_digits(value, width as int),
{
    let mut done: u8 = 0;
    while done < width
        invariant
            done <= width <= 8,
            out@ == old(out)@ + binary_digits(value, width as int).take(done as int),
        decreases width - done,
    {
        let digit: u8 = bit(value, width - 1 - done);
        out.push(decimal_digit_char(digit));
        done = done + 1;
    }
}

/// Appends a number in decimal, without leading zeros.
pub fn push_decimal(out: &mut String, n: usize)
    ensures
        final(out)@ == old(out)@ + decimal(n as nat),
    decreases n,
{
    if n >= 10 {
        push_decimal(out, n / 10);
    }
    out.push(decimal_digit_char((n % 10) as u8));
}

} // verus!
