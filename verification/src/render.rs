//! Report lines as text.
//!
//! A register line stands at the left margin; the lines that take a register
//! apart are set in by one tab, the mode of an LED by two.

use vstd::prelude::*;
use crate::error::DecodeError;
use crate::report::decode;
use crate::report::decode_failure;
use crate::report::decode_lines;
use crate::report::ReportLine;
use crate::text::binary_digits;
use crate::text::decimal;
use crate::text::hex_byte;
use crate::text::push_binary;
use crate::text::push_decimal;
use crate::text::push_hex_byte;
use crate::text::views_of;

verus! {

/// Six bytes as a MAC address: two hexadecimal digits each, with colons
/// between them.
pub open spec fn mac_text(address: Seq<u8>) -> Seq<char> {
    hex_byte(address[0]) + ":"@ + hex_byte(address[1]) + ":"@ + hex_byte(address[2]) + ":"@
        + hex_byte(address[3]) + ":"@ + hex_byte(address[4]) + ":"@ + hex_byte(address[5])
}

/// The text of a line.
pub open spec fn line_text(line: ReportLine) -> Seq<char> {
    match line {
        ReportLine::Register { entry, value } => "0x"@ + hex_byte(entry.offset) + ": 0x"@
            + hex_byte(value) + ": "@ + entry.label@,
        ReportLine::MacAddress { address } => "\t0x01 - 0x06 MAC Address: "@ + mac_text(address@),
        ReportLine::Bit { field } => "\t"@ + decimal(field.index as nat) + ": "@ + field.label@
            + ": "@ + decimal(field.value_of() as nat),
        ReportLine::ReservedBits { bits } => "\t7-2: RESERVED: b"@ + binary_digits(bits, 6),
        ReportLine::LedControl { led, code } => "\tLED"@ + decimal(led as nat) + " Control: b"@
            + binary_digits(code, 4),
        ReportLine::LedMode { mode } => "\t\t"@ + mode.name_of()@ + ": b"@ + binary_digits(
            mode.bits_of(),
            4,
        ),
    }
}

/// The texts of a sequence of lines.
pub open spec fn texts_of(lines: Seq<ReportLine>) -> Seq<Seq<char>> {
    Seq::new(lines.len(), |i: int| line_text(lines[i]))
}

/// Whether `result` is how the report of the image ends: with the failure of
/// the image where it has one, and with the texts of its lines where it has
/// none.
pub open spec fn reports_to(image: Seq<u8>, result: Result<Vec<String>, DecodeError>) -> bool {
    match result {
        Ok(texts) => decode_failure(image) is None && views_of(texts@) == texts_of(
            decode_lines(image),
        ),
        Err(error) => decode_failure(image) == Some(error),
    }
}

/// Appends six bytes as a MAC address.
fn push_mac(out: &mut String, address: &[u8; 6])
    ensures
        final(out)@ == old(out)@ + mac_text(address@),
{
    let ghost before = out@;
    push_hex_byte(out, address[0]);
    out.append(":");
    push_hex_byte(out, address[1]);
    out.append(":");
    push_hex_byte(out, address[2]);
    out.append(":");
    push_hex_byte(out, address[3]);
    out.append(":");
    push_hex_byte(out, address[4]);
    out.append(":");
    push_hex_byte(out, address[5]);
    assert(out@ == before + mac_text(address@));
}

/// Renders one line of the report.
pub fn render(line: &ReportLine) -> (text: String)
    requires
        line.well_formed(),
    ensures
        text@ == line_text(*line),
{
    match line {
        ReportLine::Register { entry, value } => {
            let mut text = String::from_str("0x");
            push_hex_byte(&mut text, entry.offset);
            text.append(": 0x");
            push_hex_byte(&mut text, *value);
            text.append(": ");
            text.append(entry.label);
            text
        },
        ReportLine::MacAddress { address } => {
            let mut text = String::from_str("\t0x01 - 0x06 MAC Address: ");
            push_mac(&mut text, address);
            text
        },
        ReportLine::Bit { field } => {
            let mut text = String::from_str("\t");
            push_decimal(&mut text, field.index as usize);
            text.append(": ");
            text.append(field.label);
            text.append(": ");
            push_decimal(&mut text, field.value() as usize);
            text
        },
        ReportLine::ReservedBits { bits } => {
            let mut text = String::from_str("\t7-2: RESERVED: b");
            push_binary(&mut text, *bits, 6);
            text
        },
        ReportLine::LedControl { led, code } => {
            let mut text = String::from_str("\tLED");
            push_decimal(&mut text, *led as usize);
            text.append(" Control: b");
            push_binary(&mut text, *code, 4);
            text
        },
        ReportLine::LedMode { mode } => {
            let mut text = String::from_str("\t\t");
            text.append(mode.name());
            text.append(": b");
            push_binary(&mut text, mode.bits(), 4);
            text
        },
    }
}

/// Renders lines, one text for each and in their order.
pub fn render_all(lines: &Vec<ReportLine>) -> (texts: Vec<String>)
    requires
        forall|i: int| 0 <= i < lines@.len() ==> (#[trigger] lines@[i]).well_formed(),
    ensures
        views_of(texts@) == texts_of(lines@),
{
    let mut texts: Vec<String> = Vec::new();
    let mut done: usize = 0;
    while done < lines.len()
        invariant
            done <= lines@.len(),
            forall|i: int| 0 <= i < lines@.len() ==> (#[trigger] lines@[i]).well_formed(),
            texts@.len() == done,
            forall|i: int| 0 <= i < done ==> (#[trigger] texts@[i])@ == line_text(lines@[i]),
        decreases lines@.len() - done,
    {
        let text: String = render(&lines[done]);
        texts.push(text);
        done = done + 1;
    }
    assert(views_of(texts@) =~= texts_of(lines@));
    texts
}

/// Decodes an image and renders its report.
///
/// Fails exactly where `decode` fails and with the same failure. Otherwise
/// the texts are those of the decoded lines, in their order.
pub fn report(image: &[u8]) -> (result: Result<Vec<String>, DecodeError>)
    ensures
        reports_to(image@, result),
        result matches Err(error) ==> error.well_formed(),
{
    match decode(image) {
        Ok(lines) => Ok(render_all(&lines)),
        Err(error) => Err(error),
    }
}

/// The report depends on the bytes of the image and on nothing else: two
/// runs on the same bytes end alike, both with the same failure or both with
/// the same texts, character for character.
pub proof fn lemma_report_deterministic(
    image: Seq<u8>,
    first: Result<Vec<String>, DecodeError>,
    second: Result<Vec<String>, DecodeError>,
)
    requires
        reports_to(image, first),
        reports_to(image, second),
    ensures
        match (first, second) {
            (Ok(a), Ok(b)) => views_of(a@) == views_of(b@),
            (Err(a), Err(b)) => a == b,
            _ => false,
        },
{
}

} // verus!
