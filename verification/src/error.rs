//! Why an image could not be decoded.

use vstd::prelude::*;
use crate::text::decimal;
use crate::text::push_decimal;

verus! {

/// A failure that ends a decoding step.
#[derive(Clone, Copy, Debug, PartialEq, Eq)]
pub enum DecodeError {
    /// The first byte of the image is `found`, not the signature byte.
    Signature { found: u8 },
    /// The decoder needed the bytes `start..end` of the image, and that is no
    /// range of an image of `len` bytes: it ends behind the image, or it ends
    /// before it starts.
    Bounds { start: usize, end: usize, len: usize },
}

impl DecodeError {
    /// A bounds failure names a range that an image of `len` bytes lacks.
    pub open spec fn well_formed(self) -> bool {
        self matches DecodeError::Bounds { start, end, len } ==> start > end || end > len
    }

    /// The text of the failure for the user.
    pub open spec fn message_of(self) -> Seq<char> {
        match self {
            DecodeError::Signature { found } => "0x00: "@ + decimal(found as nat)
                + ": Invalid EEPROM signature, expected: 0xA5"@,
            DecodeError::Bounds { start, end, len } => "No bytes "@ + decimal(start as nat)
                + ".."@ + decimal(end as nat) + " in an image of "@ + decimal(len as nat)
                + " bytes"@,
        }
    }

    /// Renders the failure for the user.
    pub fn message(&self) -> (text: String)
        ensures
            text@ == self.message_of(),
    {
        match self {
            DecodeError::Signature { found } => {
                let mut text = String::from_str("0x00: ");
                push_decimal(&mut text, *found as usize);
                text.append(": Invalid EEPROM signature, expected: 0xA5");
                text
            },
            DecodeError::Bounds { start, end, len } => {
                let mut text = String::from_str("No bytes ");
                push_decimal(&mut text, *start);
                text.append("..");
                push_decimal(&mut text, *end);
                text.append(" in an image of ");
                push_decimal(&mut text, *len);
                text.append(" bytes");
                text
            },
        }
    }
}

} // verus!
