//! Text in UTF-16, little-endian, as a string descriptor holds it.
//!
//! Decoding never fails: a surrogate without its partner, and a single byte
//! left over at the end, each become the replacement character U+FFFD.

use vstd::prelude::*;
use vstd::utf8::is_scalar;

verus! {

/// `char::from_u32` of the standard library: the character with the given
/// scalar value, and nothing for a number that is no scalar value.
pub assume_specification[ char::from_u32 ](i: u32) -> (r: Option<char>)
    ensures
        r == (if is_scalar(i) {
            Some(i as char)
        } else {
            None::<char>
        }),
;

/// What stands for data that is no text.
pub const REPLACEMENT: char = '\u{fffd}';

/// The first code unit of a surrogate pair.
pub open spec fn is_high_surrogate(unit: u16) -> bool {
    0xd800 <= unit <= 0xdbff
}

/// The second code unit of a surrogate pair.
pub open spec fn is_low_surrogate(unit: u16) -> bool {
    0xdc00 <= unit <= 0xdfff
}

/// The scalar value that a surrogate pair stands for.
pub open spec fn pair_scalar(high: u16, low: u16) -> int {
    0x10000 + (high - 0xd800) * 0x400 + (low - 0xdc00)
}

/// The text of a sequence of code units. A surrogate pair gives one
/// character, a surrogate outside a pair the replacement character, and any
/// other code unit the character with that scalar value.
pub open spec fn text_of_units(units: Seq<u16>) -> Seq<char>
    decreases units.len(),
{
    if units.len() == 0 {
        Seq::empty()
    } else if units.len() >= 2 && is_high_surrogate(units[0]) && is_low_surrogate(units[1]) {
        seq![pair_scalar(units[0], units[1]) as char] + text_of_units(units.skip(2))
    } else if is_high_surrogate(units[0]) || is_low_surrogate(units[0]) {
        seq![REPLACEMENT] + text_of_units(units.skip(1))
    } else {
        seq![units[0] as char] + text_of_units(units.skip(1))
    }
}

/// Code unit `k` of the bytes: bytes `2k` and `2k + 1`, low byte first.
pub open spec fn unit_at(bytes: Seq<u8>, k: int) -> u16 {
    (bytes[2 * k] + 0x100 * bytes[2 * k + 1]) as u16
}

/// The whole code units of the bytes. A last byte without partner is left
/// out.
pub open spec fn units_of(bytes: Seq<u8>) -> Seq<u16> {
    Seq::new((bytes.len() / 2) as nat, |k: int| unit_at(bytes, k))
}

/// The text of UTF-16 little-endian bytes: the text of their code units,
/// and the replacement character for a byte left over at the end.
pub open spec fn text_of_utf16le(bytes: Seq<u8>) -> Seq<char> {
    text_of_units(units_of(bytes)) + (if bytes.len() % 2 == 1 {
        seq![REPLACEMENT]
    } else {
        Seq::empty()
    })
}

/// The code units of one character: its scalar value, or for a scalar value
/// of 0x10000 and more a surrogate pair.
pub open spec fn units_of_char(c: char) -> Seq<u16> {
    let scalar = c as int;
    if scalar < 0x10000 {
        seq![scalar as u16]
    } else {
        seq![
            (0xd800 + (scalar - 0x10000) / 0x400) as u16,
            (0xdc00 + (scalar - 0x10000) % 0x400) as u16,
        ]
    }
}

/// The code units of a text.
pub open spec fn units_of_text(text: Seq<char>) -> Seq<u16>
    decreases text.len(),
{
    if text.len() == 0 {
        Seq::empty()
    } else {
        units_of_char(text[0]) + units_of_text(text.skip(1))
    }
}

/// The bytes of code units, two for each and the low byte first.
pub open spec fn bytes_of_units(units: Seq<u16>) -> Seq<u8> {
    Seq::new(
        2 * units.len(),
        |i: int|
            if i % 2 == 0 {
                (units[i / 2] % 0x100) as u8
            } else {
                (units[i / 2] / 0x100) as u8
            },
    )
}

/// A text as UTF-16 little-endian bytes.
pub open spec fn utf16le_of(text: Seq<char>) -> Seq<u8> {
    bytes_of_units(units_of_text(text))
}

/// Appends the character with the given scalar value, or the replacement
/// character where the number is no scalar value.
fn push_scalar(text: &mut String, scalar: u32)
    ensures
        final(text)@ == old(text)@.push(
            if is_scalar(scalar) {
                scalar as char
            } else {
                REPLACEMENT
            },
        ),
{
    match char::from_u32(scalar) {
        Some(c) => text.push(c),
        None => text.push(REPLACEMENT),
    }
}

/// Joins the bytes to code units, two bytes each and the low byte first.
pub fn code_units(bytes: &[u8]) -> (units: Vec<u16>)
    ensures
        units@ == units_of(bytes@),
{
    let len: usize = bytes.len();
    let count: usize = len / 2;
    let mut units: Vec<u16> = Vec::new();
    let mut k: usize = 0;
    while k < count
        invariant
            k <= count,
            count == bytes@.len() / 2,
            len == bytes@.len(),
            units@ == units_of(bytes@).take(k as int),
        decreases count - k,
    {
        let low: u16 = bytes[2 * k] as u16;
        let high: u16 = bytes[2 * k + 1] as u16;
        units.push(low + 0x100 * high);
        k = k + 1;
    }
    units
}

/// Decodes code units to text, with the replacement character for each
/// surrogate outside a pair.
pub fn decode_units(units: &[u16]) -> (text: String)
    ensures
        text@ == text_of_units(units@),
{
    let mut text = String::new();
    let mut at: usize = 0;
    assert(units@.skip(0) == units@);
    while at < units.len()
        invariant
            at <= units@.len(),
            text@ + text_of_units(units@.skip(at as int)) == text_of_units(units@),
        decreases units@.len() - at,
    {
        let unit: u16 = units[at];
        let ghost rest = units@.skip(at as int);
        let ghost before = text@;
        assert(rest[0] == unit);
        if 0xd800 <= unit && unit <= 0xdbff && at + 1 < units.len() && 0xdc00 <= units[at + 1]
            && units[at + 1] <= 0xdfff {
            let low: u16 = units[at + 1];
            assert(rest[1] == low);
            let scalar: u32 = 0x10000 + ((unit - 0xd800) as u32) * 0x400 + ((low - 0xdc00) as u32);
            push_scalar(&mut text, scalar);
            assert(rest.skip(2) == units@.skip(at + 2));
            assert(text@ + text_of_units(rest.skip(2)) == before + text_of_units(rest));
            at = at + 2;
        } else if 0xd800 <= unit && unit <= 0xdfff {
            text.push(REPLACEMENT);
            assert(rest.skip(1) == units@.skip(at + 1));
            assert(text@ + text_of_units(rest.skip(1)) == before + text_of_units(rest));
            at = at + 1;
        } else {
            push_scalar(&mut text, unit as u32);
            assert(rest.skip(1) == units@.skip(at + 1));
            assert(text@ + text_of_units(rest.skip(1)) == before + text_of_units(rest));
            at = at + 1;
        }
    }
    text
}

/// Decodes UTF-16 little-endian bytes to text.
pub fn decode_utf16le(bytes: &[u8]) -> (text: String)
    ensures
        text@ == text_of_utf16le(bytes@),
{
    let units: Vec<u16> = code_units(bytes);
    let mut text: String = decode_units(units.as_slice());
    if bytes.len() % 2 == 1 {
        text.push(REPLACEMENT);
    }
    text
}

/// Code units that were cut into bytes are joined to the same code units.
pub proof fn lemma_units_round_trip(units: Seq<u16>)
    ensures
        bytes_of_units(units).len() == 2 * units.len(),
        units_of(bytes_of_units(units)) == units,
{
    let bytes = bytes_of_units(units);
    assert forall|k: int| 0 <= k < units.len() implies unit_at(bytes, k) == units[k] by {
        assert(bytes[2 * k] == (units[k] % 0x100) as u8);
        assert(bytes[2 * k + 1] == (units[k] / 0x100) as u8);
    }
}

/// The code units of a text decode to that text.
pub proof fn lemma_text_round_trip(text: Seq<char>)
    ensures
        text_of_units(units_of_text(text)) == text,
    decreases text.len(),
{
    if text.len() > 0 {
        let c = text[0];
        let rest = text.skip(1);
        let units = units_of_text(text);
        lemma_text_round_trip(rest);
        vstd::utf8::char_is_scalar(c);
        vstd::utf8::char_u32_cast(c, c as u32);
        if (c as int) < 0x10000 {
            assert(units.skip(1) == units_of_text(rest));
            assert(units[0] as char == c);
        } else {
            let scalar = c as int;
            assert(units.skip(2) == units_of_text(rest));
            assert(pair_scalar(units[0], units[1]) == scalar);
        }
        assert(seq![c] + rest == text);
    }
}

/// Text that was written as UTF-16 little-endian bytes is read back as it
/// was.
pub proof fn lemma_utf16le_round_trip(text: Seq<char>)
    ensures
        text_of_utf16le(utf16le_of(text)) == text,
{
    lemma_units_round_trip(units_of_text(text));
    lemma_text_round_trip(text);
}

} // verus!
