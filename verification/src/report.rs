//! The register walk: from an image to the lines of its report.
//!
//! The walk checks the signature byte, then goes through the register map in
//! order. Each entry gives one line with the byte at its offset. The bytes
//! with an inner structure are followed by the lines that take them apart,
//! and the last of the six MAC address entries by the address as a whole.

use vstd::prelude::*;
use crate::bits::bit;
use crate::bits::bit_of;
use crate::bits::high_nibble;
use crate::bits::high_nibble_of;
use crate::bits::lemma_nibbles;
use crate::bits::low_nibble;
use crate::bits::low_nibble_of;
use crate::error::DecodeError;
use crate::led::led_control;
use crate::led::led_control_of;
use crate::led::lemma_low_nibble;
use crate::led::LedControlCode;
use crate::registers::entry_at;
use crate::registers::entry_of;
use crate::registers::lemma_offsets_ascending;
use crate::registers::RegisterEntry;
use crate::registers::IMAGE_MIN_LEN;
use crate::registers::MAC_LAST_INDEX;
use crate::registers::REGISTER_COUNT;

verus! {

/// The byte that every image starts with.
pub const SIGNATURE: u8 = 0xa5;

/// Offset of the wake enables, one bit per GPIO.
pub const GPIO_WAKE: u8 = 0x07;

/// Offset of the first byte of PME flags.
pub const PME_FLAGS_0: u8 = 0x09;

/// Offset of the second byte of PME flags.
pub const PME_FLAGS_1: u8 = 0x0a;

/// Offset of the LED enables.
pub const LED_CONFIG_0: u8 = 0x0b;

/// Offset of the control codes of LED1 and LED0.
pub const LED_CONFIG_1: u8 = 0x0c;

/// Offset of the control codes of LED3 and LED2.
pub const LED_CONFIG_2: u8 = 0x0d;

/// One bit of a register byte, with what it means.
#[derive(Clone, Copy, Debug, PartialEq, Eq)]
pub struct BitField {
    /// The whole byte of the register.
    pub byte: u8,
    /// Which bit of it, 0 for the least significant.
    pub index: u8,
    pub label: &'static str,
}

impl BitField {
    /// The index names one of the eight bits of a byte.
    pub open spec fn well_formed(self) -> bool {
        self.index < 8
    }

    /// The bit itself, 0 or 1.
    pub open spec fn value_of(self) -> u8 {
        bit_of(self.byte, self.index)
    }

    /// The bit itself, 0 or 1.
    pub fn value(&self) -> (r: u8)
        requires
            self.well_formed(),
        ensures
            r == self.value_of(),
            r <= 1,
    {
        bit(self.byte, self.index)
    }
}

/// One line of the report.
#[derive(Clone, Copy, Debug, PartialEq, Eq)]
pub enum ReportLine {
    /// The byte of one entry of the register map.
    Register { entry: RegisterEntry, value: u8 },
    /// The six bytes of the MAC address, from offset 0x01 on.
    MacAddress { address: [u8; 6] },
    /// One bit of the register line above.
    Bit { field: BitField },
    /// Bits 7 to 2 of the second byte of PME flags, which have no meaning of
    /// their own, as a number below 64.
    ReservedBits { bits: u8 },
    /// The 4-bit control code of the LED with number `led`.
    LedControl { led: u8, code: u8 },
    /// The mode that the control code above selects.
    LedMode { mode: LedControlCode },
}

impl ReportLine {
    /// Bit indices, bit groups and codes are within their widths.
    pub open spec fn well_formed(self) -> bool {
        match self {
            ReportLine::Register { .. } => true,
            ReportLine::MacAddress { .. } => true,
            ReportLine::Bit { field } => field.well_formed(),
            ReportLine::ReservedBits { bits } => bits < 64,
            ReportLine::LedControl { led, code } => led < 4 && code < 16,
            ReportLine::LedMode { mode } => mode.well_formed(),
        }
    }
}

/// How many single bits of the byte at `offset` the report shows, counted
/// from bit 0.
pub open spec fn bit_count_of(offset: u8) -> u8 {
    if offset == GPIO_WAKE || offset == PME_FLAGS_0 {
        8
    } else if offset == PME_FLAGS_1 {
        2
    } else if offset == LED_CONFIG_0 {
        4
    } else {
        0
    }
}

/// What bit `index` of the byte at `offset` means.
pub open spec fn bit_label_of(offset: u8, index: u8) -> &'static str {
    match (offset, index) {
        (0x07, 7) => "GPIOWK7",
        (0x07, 6) => "GPIOWK6",
        (0x07, 5) => "GPIOWK5",
        (0x07, 4) => "GPIOWK4",
        (0x07, 3) => "GPIOWK3",
        (0x07, 2) => "GPIOWK2",
        (0x07, 1) => "GPIOWK1",
        (0x07, 0) => "GPIOWK0",
        (0x09, 7) => "GPIO PME Enable",
        (0x09, 6) => "GPIO PME Configuration",
        (0x09, 5) => "GPIO PME Length",
        (0x09, 4) => "GPIO PME Polarity",
        (0x09, 3) => "GPIO PME Buffer Type",
        (0x09, 2) => "PHY Link Change Enable",
        (0x09, 1) => "PME Packet Enable",
        (0x09, 0) => "PME Perfect DA Enable",
        (0x0a, 1) => "PME Broadcast Packet Enabl",
        (0x0a, 0) => "PME WUFF Enable",
        (0x0b, 3) => "LED3 Enable (LED3_EN)",
        (0x0b, 2) => "LED2 Enable (LED2_EN)",
        (0x0b, 1) => "LED1 Enable (LED1_EN)",
        (0x0b, 0) => "LED0 Enable (LED0_EN)",
        _ => "",
    }
}

/// The line for bit `index` of the byte `value` at `offset`.
pub open spec fn bit_line_of(offset: u8, value: u8, index: u8) -> ReportLine {
    ReportLine::Bit {
        field: BitField { byte: value, index, label: bit_label_of(offset, index) },
    }
}

/// The single bits of the byte `value` at `offset`, highest index first.
pub open spec fn bit_lines_of(offset: u8, value: u8) -> Seq<ReportLine> {
    Seq::new(
        bit_count_of(offset) as nat,
        |i: int| bit_line_of(offset, value, (bit_count_of(offset) - 1 - i) as u8),
    )
}

/// The two control codes in the byte `value`: the high nibble is the code of
/// LED `high_led`, the low nibble that of the LED before it. Each code is
/// followed by the mode it selects.
pub open spec fn led_lines_of(high_led: u8, value: u8) -> Seq<ReportLine> {
    seq![
        ReportLine::LedControl { led: high_led, code: high_nibble_of(value) },
        ReportLine::LedMode { mode: led_control_of(high_nibble_of(value)) },
        ReportLine::LedControl { led: (high_led - 1) as u8, code: low_nibble_of(value) },
        ReportLine::LedMode { mode: led_control_of(low_nibble_of(value)) },
    ]
}

/// The lines that take the byte `value` at `offset` apart. Empty for a byte
/// without inner structure.
pub open spec fn expansion_of(offset: u8, value: u8) -> Seq<ReportLine> {
    if offset == PME_FLAGS_1 {
        seq![ReportLine::ReservedBits { bits: value >> 2 }] + bit_lines_of(offset, value)
    } else if offset == LED_CONFIG_1 {
        led_lines_of(1, value)
    } else if offset == LED_CONFIG_2 {
        led_lines_of(3, value)
    } else {
        bit_lines_of(offset, value)
    }
}

/// The line of the entry at `index` of the register map: the entry and the
/// byte of the image at its offset.
pub open spec fn register_line_of(image: Seq<u8>, index: int) -> ReportLine {
    ReportLine::Register { entry: entry_of(index), value: image[entry_of(index).offset as int] }
}

/// The MAC address of the image as a whole.
pub open spec fn mac_line_of(image: Seq<u8>) -> ReportLine {
    ReportLine::MacAddress {
        address: [image[1], image[2], image[3], image[4], image[5], image[6]],
    }
}

/// All lines that the entry at `index` gives: its register line, after the
/// last MAC address entry the address, and the expansion of its byte.
pub open spec fn entry_lines_of(image: Seq<u8>, index: int) -> Seq<ReportLine> {
    seq![register_line_of(image, index)] + (if index == MAC_LAST_INDEX {
        seq![mac_line_of(image)]
    } else {
        Seq::empty()
    }) + expansion_of(entry_of(index).offset, image[entry_of(index).offset as int])
}

/// The lines of the first `count` entries of the register map.
pub open spec fn walk_of(image: Seq<u8>, count: int) -> Seq<ReportLine>
    decreases count,
{
    if count <= 0 {
        Seq::empty()
    } else {
        walk_of(image, count - 1) + entry_lines_of(image, count - 1)
    }
}

/// The report of an image: the lines of all entries of the register map.
pub open spec fn decode_lines(image: Seq<u8>) -> Seq<ReportLine> {
    walk_of(image, REGISTER_COUNT as int)
}

/// Why an image has no report, if it has none: it is empty, it does not start
/// with the signature byte, or it is too short for the register map. The
/// signature is judged before the length.
pub open spec fn decode_failure(image: Seq<u8>) -> Option<DecodeError> {
    if image.len() == 0 {
        Some(DecodeError::Bounds { start: 0, end: IMAGE_MIN_LEN, len: 0 })
    } else if image[0] != SIGNATURE {
        Some(DecodeError::Signature { found: image[0] })
    } else if image.len() < IMAGE_MIN_LEN {
        Some(DecodeError::Bounds { start: 0, end: IMAGE_MIN_LEN, len: image.len() as usize })
    } else {
        None
    }
}

/// Whether `result` is how decoding the image ends: with the failure of the
/// image where it has one, and with its lines where it has none.
pub open spec fn decodes_to(image: Seq<u8>, result: Result<Vec<ReportLine>, DecodeError>) -> bool {
    match result {
        Ok(lines) => decode_failure(image) is None && lines@ == decode_lines(image),
        Err(error) => decode_failure(image) == Some(error),
    }
}

fn bit_label(offset: u8, index: u8) -> (label: &'static str)
    ensures
        label == bit_label_of(offset, index),
{
    match (offset, index) {
        (0x07, 7) => "GPIOWK7",
        (0x07, 6) => "GPIOWK6",
        (0x07, 5) => "GPIOWK5",
        (0x07, 4) => "GPIOWK4",
        (0x07, 3) => "GPIOWK3",
        (0x07, 2) => "GPIOWK2",
        (0x07, 1) => "GPIOWK1",
        (0x07, 0) => "GPIOWK0",
        (0x09, 7) => "GPIO PME Enable",
        (0x09, 6) => "GPIO PME Configuration",
        (0x09, 5) => "GPIO PME Length",
        (0x09, 4) => "GPIO PME Polarity",
        (0x09, 3) => "GPIO PME Buffer Type",
        (0x09, 2) => "PHY Link Change Enable",
        (0x09, 1) => "PME Packet Enable",
        (0x09, 0) => "PME Perfect DA Enable",
        (0x0a, 1) => "PME Broadcast Packet Enabl",
        (0x0a, 0) => "PME WUFF Enable",
        (0x0b, 3) => "LED3 Enable (LED3_EN)",
        (0x0b, 2) => "LED2 Enable (LED2_EN)",
        (0x0b, 1) => "LED1 Enable (LED1_EN)",
        (0x0b, 0) => "LED0 Enable (LED0_EN)",
        _ => "",
    }
}

fn bit_count(offset: u8) -> (count: u8)
    ensures
        count == bit_count_of(offset),
{
    if offset == GPIO_WAKE || offset == PME_FLAGS_0 {
        8
    } else if offset == PME_FLAGS_1 {
        2
    } else if offset == LED_CONFIG_0 {
        4
    } else {
        0
    }
}

/// Appends the single bits of the byte `value` at `offset`, highest index
/// first.
fn push_bit_lines(lines: &mut Vec<ReportLine>, offset: u8, value: u8)
    ensures
        final(lines)@ == old(lines)@ + bit_lines_of(offset, value),
{
    let count: u8 = bit_count(offset);
    let mut done: u8 = 0;
    while done < count
        invariant
            done <= count,
            count == bit_count_of(offset),
            lines@ == old(lines)@ + bit_lines_of(offset, value).take(done as int),
        decreases count - done,
    {
        let index: u8 = count - 1 - done;
        lines.push(
            ReportLine::Bit {
                field: BitField { byte: value, index, label: bit_label(offset, index) },
            },
        );
        done = done + 1;
    }
}

/// Appends the two control codes in the byte `value` and their modes.
fn push_led_lines(lines: &mut Vec<ReportLine>, high_led: u8, value: u8)
    requires
        high_led >= 1,
    ensures
        final(lines)@ == old(lines)@ + led_lines_of(high_led, value),
{
    let high: u8 = high_nibble(value);
    let low: u8 = low_nibble(value);
    lines.push(ReportLine::LedControl { led: high_led, code: high });
    lines.push(ReportLine::LedMode { mode: led_control(high) });
    lines.push(ReportLine::LedControl { led: high_led - 1, code: low });
    lines.push(ReportLine::LedMode { mode: led_control(low) });
}

/// Appends the lines that take the byte `value` at `offset` apart.
fn push_expansion(lines: &mut Vec<ReportLine>, offset: u8, value: u8)
    ensures
        final(lines)@ == old(lines)@ + expansion_of(offset, value),
{
    if offset == PME_FLAGS_1 {
        lines.push(ReportLine::ReservedBits { bits: value >> 2 });
        push_bit_lines(lines, offset, value);
    } else if offset == LED_CONFIG_1 {
        push_led_lines(lines, 1, value);
    } else if offset == LED_CONFIG_2 {
        push_led_lines(lines, 3, value);
    } else {
        push_bit_lines(lines, offset, value);
    }
}

/// The lines that take the byte `value` of the register at `offset` apart:
/// its single bits, highest first, or its two LED control codes with their
/// modes. Empty for a register without inner structure.
pub fn expansion(offset: u8, value: u8) -> (lines: Vec<ReportLine>)
    ensures
        lines@ == expansion_of(offset, value),
        forall|i: int| 0 <= i < lines@.len() ==> (#[trigger] lines@[i]).well_formed(),
{
    let mut lines: Vec<ReportLine> = Vec::new();
    push_expansion(&mut lines, offset, value);
    proof {
        lemma_expansion_well_formed(offset, value);
    }
    lines
}

/// Decodes an image into the lines of its report.
///
/// Fails, with no line at all, on an image that is empty, that does not start
/// with the signature byte, or that is shorter than the register map asks
/// for. Otherwise the report has, for each entry of the map in order, the
/// line of the entry followed by the lines that belong to it.
pub fn decode(image: &[u8]) -> (result: Result<Vec<ReportLine>, DecodeError>)
    ensures
        decodes_to(image@, result),
        result matches Ok(lines) ==> forall|i: int|
            0 <= i < lines@.len() ==> (#[trigger] lines@[i]).well_formed(),
        result matches Err(error) ==> error.well_formed(),
{
    let len: usize = image.len();
    if len == 0 {
        return Err(DecodeError::Bounds { start: 0, end: IMAGE_MIN_LEN, len: 0 });
    }
    if image[0] != SIGNATURE {
        return Err(DecodeError::Signature { found: image[0] });
    }
    if len < IMAGE_MIN_LEN {
        return Err(DecodeError::Bounds { start: 0, end: IMAGE_MIN_LEN, len });
    }
    let mut lines: Vec<ReportLine> = Vec::new();
    let mut index: usize = 0;
    while index < REGISTER_COUNT
        invariant
            index <= REGISTER_COUNT,
            image@.len() >= IMAGE_MIN_LEN,
            lines@ == walk_of(image@, index as int),
        decreases REGISTER_COUNT - index,
    {
        let entry: RegisterEntry = entry_at(index);
        proof {
            lemma_offsets_ascending(index as int, index as int);
        }
        let value: u8 = image[entry.offset as usize];
        lines.push(ReportLine::Register { entry, value });
        if index == MAC_LAST_INDEX {
            lines.push(
                ReportLine::MacAddress {
                    address: [image[1], image[2], image[3], image[4], image[5], image[6]],
                },
            );
        }
        push_expansion(&mut lines, entry.offset, value);
        index = index + 1;
    }
    proof {
        lemma_walk_well_formed(image@, REGISTER_COUNT as int);
    }
    Ok(lines)
}

/// What tells the register lines from the other lines of a report.
pub open spec fn is_register_line() -> spec_fn(ReportLine) -> bool {
    |line: ReportLine| line is Register
}

/// The register lines among `lines`, in their order.
pub open spec fn register_lines_of(lines: Seq<ReportLine>) -> Seq<ReportLine> {
    lines.filter(is_register_line())
}

/// A filter that no item passes leaves nothing.
proof fn lemma_filter_none<A>(items: Seq<A>, pred: spec_fn(A) -> bool)
    requires
        forall|i: int| 0 <= i < items.len() ==> !pred(#[trigger] items[i]),
    ensures
        items.filter(pred) == Seq::<A>::empty(),
    decreases items.len(),
{
    reveal(Seq::filter);
    if items.len() > 0 {
        lemma_filter_none(items.drop_last(), pred);
    }
}

/// Among the lines of one entry, the register line is the only one of its
/// kind.
proof fn lemma_entry_register_lines(image: Seq<u8>, index: int)
    ensures
        register_lines_of(entry_lines_of(image, index)) == seq![register_line_of(image, index)],
{
    let pred = is_register_line();
    let head = seq![register_line_of(image, index)];
    let mac = if index == MAC_LAST_INDEX {
        seq![mac_line_of(image)]
    } else {
        Seq::empty()
    };
    let tail = expansion_of(entry_of(index).offset, image[entry_of(index).offset as int]);
    Seq::filter_distributes_over_add(head + mac, tail, pred);
    Seq::filter_distributes_over_add(head, mac, pred);
    lemma_filter_none(mac, pred);
    lemma_filter_none(tail, pred);
    assert(head.filter(pred) == head) by {
        reveal_with_fuel(Seq::filter, 2);
        assert(head.drop_last() == Seq::<ReportLine>::empty());
    }
}

/// The register lines of the first `count` entries are the lines of those
/// entries, one each, in the order of the map.
pub proof fn lemma_walk_register_lines(image: Seq<u8>, count: int)
    requires
        0 <= count,
    ensures
        register_lines_of(walk_of(image, count)) == Seq::new(
            count as nat,
            |index: int| register_line_of(image, index),
        ),
    decreases count,
{
    if count > 0 {
        lemma_walk_register_lines(image, count - 1);
        lemma_entry_register_lines(image, count - 1);
        Seq::filter_distributes_over_add(
            walk_of(image, count - 1),
            entry_lines_of(image, count - 1),
            is_register_line(),
        );
    } else {
        lemma_filter_none(walk_of(image, count), is_register_line());
    }
}

/// The report of an image that decodes has exactly one register line for
/// each entry of the register map, in the order of the map, which is the
/// order of ascending offsets, and the line of an entry shows the byte of the
/// image at the offset of the entry.
pub proof fn lemma_one_register_line_per_entry(image: Seq<u8>)
    requires
        decode_failure(image) is None,
    ensures
        register_lines_of(decode_lines(image)).len() == REGISTER_COUNT,
        forall|index: int|
            0 <= index < REGISTER_COUNT ==> #[trigger] register_lines_of(
                decode_lines(image),
            )[index] == (ReportLine::Register {
                entry: entry_of(index),
                value: image[entry_of(index).offset as int],
            }),
        forall|i: int, j: int|
            #![trigger entry_of(i), entry_of(j)]
            0 <= i <= j < REGISTER_COUNT ==> entry_of(i).offset <= entry_of(j).offset < image.len(),
{
    lemma_walk_register_lines(image, REGISTER_COUNT as int);
    assert forall|i: int, j: int|
        #![trigger entry_of(i), entry_of(j)]
        0 <= i <= j < REGISTER_COUNT implies entry_of(i).offset <= entry_of(j).offset
        < image.len() by {
        lemma_offsets_ascending(i, j);
    }
}

/// Decoding depends on the bytes of the image and on nothing else: two runs
/// on the same bytes end alike, both with the same failure or both with the
/// same lines.
pub proof fn lemma_decode_deterministic(
    image: Seq<u8>,
    first: Result<Vec<ReportLine>, DecodeError>,
    second: Result<Vec<ReportLine>, DecodeError>,
)
    requires
        decodes_to(image, first),
        decodes_to(image, second),
    ensures
        match (first, second) {
            (Ok(a), Ok(b)) => a@ == b@,
            (Err(a), Err(b)) => a == b,
            _ => false,
        },
{
}

/// An image that does not start with the signature byte has no report: it
/// fails with the byte found, and no line is decoded.
pub proof fn lemma_wrong_signature_fails(
    image: Seq<u8>,
    result: Result<Vec<ReportLine>, DecodeError>,
)
    requires
        image.len() > 0,
        image[0] != SIGNATURE,
        decodes_to(image, result),
    ensures
        result == Err::<Vec<ReportLine>, DecodeError>(DecodeError::Signature { found: image[0] }),
{
}

/// Every line of the walk is well formed.
pub proof fn lemma_walk_well_formed(image: Seq<u8>, count: int)
    ensures
        forall|i: int|
            0 <= i < walk_of(image, count).len() ==> (#[trigger] walk_of(
                image,
                count,
            )[i]).well_formed(),
    decreases count,
{
    if count > 0 {
        let before = walk_of(image, count - 1);
        let offset = entry_of(count - 1).offset;
        let tail = expansion_of(offset, image[offset as int]);
        lemma_walk_well_formed(image, count - 1);
        lemma_expansion_well_formed(offset, image[offset as int]);
        assert forall|i: int| 0 <= i < walk_of(image, count).len() implies (#[trigger] walk_of(
            image,
            count,
        )[i]).well_formed() by {
            let line = walk_of(image, count)[i];
            if i < before.len() {
                assert(line == before[i]);
            } else {
                let k = i - before.len();
                let entry_lines = entry_lines_of(image, count - 1);
                assert(line == entry_lines[k]);
                assert(entry_lines.len() - tail.len() <= k ==> line == tail[k - (
                entry_lines.len() - tail.len())]);
            }
        }
    }
}

/// Every line of an expansion is well formed.
pub proof fn lemma_expansion_well_formed(offset: u8, value: u8)
    ensures
        forall|i: int|
            0 <= i < expansion_of(offset, value).len() ==> (#[trigger] expansion_of(
                offset,
                value,
            )[i]).well_formed(),
{
    lemma_nibbles(value);
    lemma_low_nibble(high_nibble_of(value));
    lemma_low_nibble(low_nibble_of(value));
    assert(value >> 2 < 64) by (bit_vector);
}

} // verus!
