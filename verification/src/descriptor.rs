//! String descriptors that the image holds outside the register map.
//!
//! Two bytes of the register map point at a descriptor: one gives its length
//! in bytes, the other where it starts, counted in words of two bytes. The
//! descriptor starts with a byte that repeats its length and a byte for its
//! type; what follows is its payload.

use vstd::prelude::*;
use vstd::slice::slice_to_vec;
use crate::error::DecodeError;
use crate::hexdump::simple_dump;
use crate::hexdump::simple_hex_text;
use crate::text::hex_byte;
use crate::text::hex_short;
use crate::text::push_hex_byte;
use crate::text::push_hex_short;
use crate::text::views_of;
use crate::utf16::decode_utf16le;
use crate::utf16::lemma_utf16le_round_trip;
use crate::utf16::text_of_utf16le;
use crate::utf16::utf16le_of;

verus! {

/// Offset of the length of the manufacturer ID string descriptor.
pub const MANUFACTURER_LENGTH: u8 = 0x25;

/// Offset of the word offset of the manufacturer ID string descriptor.
pub const MANUFACTURER_WORD_OFFSET: u8 = 0x26;

/// The type byte of a descriptor that holds text.
pub const STRING_TYPE: u8 = 0x03;

/// The two lengths of a descriptor that should agree and do not: the one in
/// the register map and the one at the start of the descriptor.
#[derive(Clone, Copy, Debug, PartialEq, Eq)]
pub struct LengthMismatch {
    /// Offset of the length in the register map.
    pub length_field: u8,
    /// The length found there.
    pub header_length: u8,
    /// Where the descriptor starts, in words of two bytes.
    pub word_offset: u8,
    /// The length found at the start of the descriptor.
    pub descriptor_length: u8,
}

/// A descriptor as found in an image.
#[derive(Clone, Debug, PartialEq, Eq)]
pub struct Descriptor {
    /// Byte offset of the descriptor in the image.
    pub offset: usize,
    /// Length of the descriptor in bytes, as the register map gives it.
    pub size: u8,
    /// The type byte of the descriptor.
    pub kind: u8,
    /// Set where the descriptor gives another length for itself than the
    /// register map.
    pub warning: Option<LengthMismatch>,
    /// The bytes of the descriptor behind its length and its type.
    pub payload: Vec<u8>,
    /// The payload as text, for a descriptor of the string type.
    pub text: Option<String>,
}

/// What a descriptor holds.
pub struct DescriptorView {
    pub offset: int,
    pub size: u8,
    pub kind: u8,
    pub warning: Option<LengthMismatch>,
    pub payload: Seq<u8>,
    pub text: Option<Seq<char>>,
}

/// The characters of a text that may be missing.
pub open spec fn text_view_of(text: Option<String>) -> Option<Seq<char>> {
    match text {
        Some(text) => Some(text@),
        None => None,
    }
}

impl View for Descriptor {
    type V = DescriptorView;

    open spec fn view(&self) -> DescriptorView {
        DescriptorView {
            offset: self.offset as int,
            size: self.size,
            kind: self.kind,
            warning: self.warning,
            payload: self.payload@,
            text: text_view_of(self.text),
        }
    }
}

/// Why the descriptor that the two fields point at cannot be taken from the
/// image, if it cannot: a field lies outside the image, the descriptor starts
/// outside the image, or its payload, which runs from behind its two leading
/// bytes to its end, is no range of the image.
pub open spec fn resolve_failure(image: Seq<u8>, length_field: u8, offset_field: u8) -> Option<
    DecodeError,
> {
    let len = image.len() as usize;
    if length_field >= image.len() {
        Some(
            DecodeError::Bounds {
                start: length_field as usize,
                end: (length_field + 1) as usize,
                len,
            },
        )
    } else if offset_field >= image.len() {
        Some(
            DecodeError::Bounds {
                start: offset_field as usize,
                end: (offset_field + 1) as usize,
                len,
            },
        )
    } else {
        let size = image[length_field as int];
        let offset = 2 * image[offset_field as int];
        if offset >= image.len() {
            Some(DecodeError::Bounds { start: offset as usize, end: (offset + 1) as usize, len })
        } else if size < 2 || offset + size > image.len() {
            Some(
                DecodeError::Bounds {
                    start: (offset + 2) as usize,
                    end: (offset + size) as usize,
                    len,
                },
            )
        } else {
            None
        }
    }
}

/// The descriptor that the two fields point at.
pub open spec fn descriptor_of(image: Seq<u8>, length_field: u8, offset_field: u8) -> DescriptorView {
    let size = image[length_field as int];
    let offset = 2 * image[offset_field as int];
    let kind = image[offset + 1];
    let payload = image.subrange(offset + 2, offset + size);
    DescriptorView {
        offset,
        size,
        kind,
        warning: if size != image[offset] {
            Some(
                LengthMismatch {
                    length_field,
                    header_length: size,
                    word_offset: image[offset_field as int],
                    descriptor_length: image[offset],
                },
            )
        } else {
            None
        },
        payload,
        text: if kind == STRING_TYPE {
            Some(text_of_utf16le(payload))
        } else {
            None
        },
    }
}

/// Whether `result` is how taking the descriptor from the image ends: with
/// the failure where there is one, and else with the descriptor that the two
/// fields point at.
pub open spec fn resolves_to(
    image: Seq<u8>,
    length_field: u8,
    offset_field: u8,
    result: Result<Descriptor, DecodeError>,
) -> bool {
    match result {
        Ok(descriptor) => resolve_failure(image, length_field, offset_field) is None
            && descriptor@ == descriptor_of(image, length_field, offset_field),
        Err(error) => resolve_failure(image, length_field, offset_field) == Some(error),
    }
}

/// Takes the descriptor that the two fields of the register map point at
/// from the image.
///
/// A descriptor whose own length byte differs from the length in the
/// register map is taken all the same, by the length in the register map,
/// and carries a warning. Its payload is decoded as text where its type is
/// the string type, and only there.
pub fn resolve(image: &[u8], length_field: u8, offset_field: u8) -> (result: Result<
    Descriptor,
    DecodeError,
>)
    ensures
        resolves_to(image@, length_field, offset_field, result),
        result matches Err(error) ==> error.well_formed(),
{
    let len: usize = image.len();
    if length_field as usize >= len {
        return Err(
            DecodeError::Bounds {
                start: length_field as usize,
                end: length_field as usize + 1,
                len,
            },
        );
    }
    if offset_field as usize >= len {
        return Err(
            DecodeError::Bounds {
                start: offset_field as usize,
                end: offset_field as usize + 1,
                len,
            },
        );
    }
    let size: u8 = image[length_field as usize];
    let word_offset: u8 = image[offset_field as usize];
    let offset: usize = 2 * (word_offset as usize);
    if offset >= len {
        return Err(DecodeError::Bounds { start: offset, end: offset + 1, len });
    }
    let start: usize = offset + 2;
    let end: usize = offset + size as usize;
    if size < 2 || end > len {
        return Err(DecodeError::Bounds { start, end, len });
    }
    let descriptor_length: u8 = image[offset];
    let warning: Option<LengthMismatch> = if size != descriptor_length {
        Some(LengthMismatch { length_field, header_length: size, word_offset, descriptor_length })
    } else {
        None
    };
    let kind: u8 = image[offset + 1];
    let payload: Vec<u8> = slice_to_vec(&image[start..end]);
    let text: Option<String> = if kind == STRING_TYPE {
        Some(decode_utf16le(payload.as_slice()))
    } else {
        None
    };
    Ok(Descriptor { offset, size, kind, warning, payload, text })
}

/// Takes the manufacturer ID string descriptor from the image.
pub fn resolve_manufacturer(image: &[u8]) -> (result: Result<Descriptor, DecodeError>)
    ensures
        resolves_to(image@, MANUFACTURER_LENGTH, MANUFACTURER_WORD_OFFSET, result),
        result matches Err(error) ==> error.well_formed(),
{
    resolve(image, MANUFACTURER_LENGTH, MANUFACTURER_WORD_OFFSET)
}

/// Taking a descriptor depends on the bytes of the image and on the two
/// fields alone: two runs on the same bytes end alike, both with the same
/// failure or both with descriptors that hold the same.
pub proof fn lemma_resolve_deterministic(
    image: Seq<u8>,
    length_field: u8,
    offset_field: u8,
    first: Result<Descriptor, DecodeError>,
    second: Result<Descriptor, DecodeError>,
)
    requires
        resolves_to(image, length_field, offset_field, first),
        resolves_to(image, length_field, offset_field, second),
    ensures
        match (first, second) {
            (Ok(a), Ok(b)) => a@ == b@,
            (Err(a), Err(b)) => a == b,
            _ => false,
        },
{
}

/// A descriptor warns exactly where the length in the register map and the
/// length byte at its own start differ, and the warning names both places and
/// both lengths.
pub proof fn lemma_warning_iff_lengths_differ(image: Seq<u8>, length_field: u8, offset_field: u8)
    ensures
        ({
            let found = descriptor_of(image, length_field, offset_field);
            let own = image[2 * image[offset_field as int]];
            &&& found.warning is None <==> image[length_field as int] == own
            &&& found.warning matches Some(warning) ==> {
                &&& warning.length_field == length_field
                &&& warning.header_length == image[length_field as int]
                &&& warning.descriptor_offset_of() == found.offset
                &&& warning.descriptor_length == own
            }
        }),
{
}

/// A descriptor of the string type whose payload is a text in UTF-16
/// little-endian has exactly that text. A descriptor of another type has no
/// text, and only the dump of its payload is shown.
pub proof fn lemma_descriptor_text(
    image: Seq<u8>,
    length_field: u8,
    offset_field: u8,
    text: Seq<char>,
    dump: Seq<char>,
)
    ensures
        ({
            let found = descriptor_of(image, length_field, offset_field);
            &&& found.kind == STRING_TYPE && found.payload == utf16le_of(text) ==> found.text
                == Some(text)
            &&& found.kind != STRING_TYPE ==> found.text is None && payload_texts(
                dump,
                found.text,
            ).len() == 1
        }),
{
    lemma_utf16le_round_trip(text);
}

impl LengthMismatch {
    /// Byte offset of the descriptor in the image.
    pub open spec fn descriptor_offset_of(self) -> int {
        2 * self.word_offset
    }

    /// The text of the warning: both places and the length found at each.
    pub open spec fn message_of(self) -> Seq<char> {
        "\tERROR: Length @0x"@ + hex_byte(self.length_field) + "=0x"@ + hex_byte(
            self.header_length,
        ) + " and bLength @0x"@ + hex_short(self.descriptor_offset_of()) + "=0x"@ + hex_byte(
            self.descriptor_length,
        ) + " differ!"@
    }

    /// Byte offset of the descriptor in the image.
    pub fn descriptor_offset(&self) -> (offset: usize)
        ensures
            offset == self.descriptor_offset_of(),
    {
        2 * (self.word_offset as usize)
    }

    /// Renders the warning for the user.
    pub fn message(&self) -> (text: String)
        ensures
            text@ == self.message_of(),
    {
        let mut text = String::from_str("\tERROR: Length @0x");
        push_hex_byte(&mut text, self.length_field);
        text.append("=0x");
        push_hex_byte(&mut text, self.header_length);
        text.append(" and bLength @0x");
        push_hex_short(&mut text, 2 * (self.word_offset as u16));
        text.append("=0x");
        push_hex_byte(&mut text, self.descriptor_length);
        text.append(" differ!");
        text
    }
}

/// The lines that show a payload: its dump, set in by a tab, and, where it
/// was decoded, its text between single quotes.
pub open spec fn payload_texts(dump: Seq<char>, text: Option<Seq<char>>) -> Seq<Seq<char>> {
    match text {
        Some(text) => seq!["\t"@ + dump, "\t'"@ + text + "'"@],
        None => seq!["\t"@ + dump],
    }
}

/// Renders the lines that show a payload, from its dump and its text.
pub fn payload_lines(dump: &str, text: &Option<String>) -> (lines: Vec<String>)
    ensures
        views_of(lines@) == payload_texts(dump@, text_view_of(*text)),
{
    let mut lines: Vec<String> = Vec::new();
    let mut first = String::from_str("\t");
    first.append(dump);
    lines.push(first);
    match text {
        Some(text) => {
            let mut second = String::from_str("\t'");
            second.append(text.as_str());
            second.append("'");
            lines.push(second);
        },
        None => {},
    }
    lines
}

/// Renders the lines that show the payload of a descriptor: its one-line hex
/// dump and, for a descriptor of the string type, its text.
pub fn descriptor_lines(descriptor: &Descriptor) -> (lines: Vec<String>)
    ensures
        views_of(lines@) == payload_texts(
            simple_hex_text(descriptor@.payload),
            descriptor@.text,
        ),
{
    let dump: String = simple_dump(descriptor.payload.as_slice());
    payload_lines(dump.as_str(), &descriptor.text)
}

} // verus!
