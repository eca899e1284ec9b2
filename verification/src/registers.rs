//! The register map: which byte of the image holds which setting.
//!
//! The map is a fixed table in ascending offset order. Offset 0x01 stands in
//! it six times, once for each byte lane of the MAC address; offsets 0x45 and
//! 0x60 are not part of the map.

use vstd::prelude::*;

verus! {

/// One entry of the register map: a byte offset into the image and what the
/// byte at that offset means.
#[derive(Clone, Copy, Debug, PartialEq, Eq)]
pub struct RegisterEntry {
    pub offset: u8,
    pub label: &'static str,
}

/// Number of entries in the register map.
pub const REGISTER_COUNT: usize = 96;

/// Index of the last of the six MAC address entries.
pub const MAC_LAST_INDEX: usize = 6;

/// Number of bytes an image must have for every entry of the map to be
/// readable: one more than the highest offset, 0x61.
pub const IMAGE_MIN_LEN: usize = 0x62;

/// The offset of the entry at `index`: 0x00, then 0x01 six times, then the
/// run 0x07..=0x44, the run 0x46..=0x5F, and 0x61.
pub open spec fn offset_of(index: int) -> int {
    if index <= 0 {
        0x00
    } else if index <= 6 {
        0x01
    } else if index <= 0x44 {
        index
    } else if index <= 0x5e {
        index + 1
    } else {
        0x61
    }
}

/// The label of the entry at `index`.
pub open spec fn label_of(index: usize) -> &'static str {
    match index {
        0 => "EEPROM signature found",
        1 => "MAC Address [7:0]",
        2 => "MAC Address [15:8]",
        3 => "MAC Address [23:16]",
        4 => "MAC Address [31:24]",
        5 => "MAC Address [39:32]",
        6 => "MAC Address [47:40]",
        7 => "Wakeup Enables",
        8 => "RESERVED (0x00)",
        9 => "GPIO PME Flags 0",
        10 => "GPIO PME Flags 1",
        11 => "LED Configuration 0",
        12 => "LED Configuration 1",
        13 => "LED Configuration 2",
        14 => "Wakeup Polarity",
        15 => "RESERVED (0x00)",
        16 => "Full-Speed Polling Interval for Interrupt Endpoint",
        17 => "High-Speed Polling Interval for Interrupt Endpoint",
        18 => "SuperSpeed Polling Interval for Interrupt Endpoint",
        19 => "Configuration Flags 0 [7:0]",
        20 => "Configuration Flags 0 [15:8]",
        21 => "Configuration Flags 0 [23:16]",
        22 => "Configuration Flags 0 [31:24]",
        23 => "Configuration Flags 1 [7:0]",
        24 => "Configuration Flags 1 [15:8]",
        25 => "Configuration Flags 1 [23:16]",
        26 => "Configuration Flags 1 [31:24]",
        27 => "Configuration Flags 2 [7:0]",
        28 => "Configuration Flags 2 [15:8]",
        29 => "Configuration Flags 2 [23:16]",
        30 => "Configuration Flags 2 [31:24]",
        31 => "Configuration Flags 3 [7:0]",
        32 => "Configuration Flags 3 [15:8]",
        33 => "Configuration Flags 3 [23:16]",
        34 => "Configuration Flags 3 [31:24]",
        35 => "Language ID [7:0]",
        36 => "Language ID [15:8]",
        37 => "Manufacturer ID String Descriptor Length (bytes)",
        38 => "Manufacturer ID String Descriptor EEPROM Word Offset",
        39 => "Product Name String Descriptor Length (bytes)",
        40 => "Product Name String Descriptor EEPROM Word Offset",
        41 => "Serial Number String Descriptor Length (bytes)",
        42 => "Serial Number String Descriptor EEPROM Word Offset",
        43 => "Configuration String Descriptor Length (bytes)",
        44 => "Configuration String Descriptor Word Offset",
        45 => "Interface String Descriptor Length (bytes)",
        46 => "Interface String Descriptor Word Offset",
        47 => "Binary Object Store (BOS) Block Length (Bytes)",
        48 => "Binary Object Store (BOS) Block Word Offset",
        49 => "SuperSpeed Device Descriptor Length (bytes)",
        50 => "SuperSpeed Device Descriptor Word Offset",
        51 => "SuperSpeed Configuration Block Length (bytes)",
        52 => "SuperSpeed Configuration Block Word Offset",
        53 => "High-Speed Device Descriptor Length (bytes)",
        54 => "High-Speed Device Descriptor Word Offset",
        55 => "High-Speed Configuration and Interface Descriptor Length (bytes)",
        56 => "High-Speed Configuration and Interface Descriptor Word Offset",
        57 => "Full-Speed Device Descriptor Length (bytes)",
        58 => "Full-Speed Device Descriptor Word Offset",
        59 => "Full-Speed Configuration and Interface Descriptor Length (bytes)",
        60 => "Full-Speed Configuration and Interface Descriptor Word Offset",
        61 => "Wake Frame Filter 0 Configuration and Mask Length (bytes)",
        62 => "Wake Frame Filter 0 Configuration and Mask Word Offset",
        63 => "LTM BELT and Inactivity Timer Length (bytes)",
        64 => "LTM BELT and Inactivity Timer Word Offset",
        65 => "Common Test Bus In Length (bytes)",
        66 => "Common Test Bus In Word Offset (bytes)",
        67 => "RESERVED (0x20)",
        68 => "RESERVED (0x00)",
        69 => "SW Descriptor Length (bytes)",
        70 => "SW Descriptor Word Offset (bytes)",
        71 => "GPIO Configuration",
        72 => "GPIO Configuration",
        73 => "GPIO Configuration",
        74 => "GPIO Configuration",
        75 => "GPIO Configuration",
        76 => "GPIO Configuration",
        77 => "GPIO Configuration",
        78 => "GPIO Configuration",
        79 => "RESERVED (0x00)",
        80 => "RESERVED (0x00)",
        81 => "RESERVED (0x00)",
        82 => "RESERVED (0x00)",
        83 => "RESERVED (0x00)",
        84 => "RESERVED (0x00)",
        85 => "RESERVED (0x00)",
        86 => "RESERVED (0x00)",
        87 => "LED Configuration 3",
        88 => "LED Configuration 4",
        89 => "RESERVED (0x??)",
        90 => "RESERVED (0x??)",
        91 => "RESERVED (0x??)",
        92 => "RESERVED (0x??)",
        93 => "RESERVED (0x??)",
        94 => "RESERVED (0x??)",
        _ => "RESERVED (0x??)",
    }
}

/// The entry at `index` of the map.
pub open spec fn entry_of(index: int) -> RegisterEntry {
    RegisterEntry { offset: offset_of(index) as u8, label: label_of(index as usize) }
}

/// The whole map, in order.
pub open spec fn register_map_of() -> Seq<RegisterEntry> {
    Seq::new(REGISTER_COUNT as nat, |index: int| entry_of(index))
}

/// Looks up the entry at `index`.
pub fn register_entry(index: usize) -> (entry: Option<RegisterEntry>)
    ensures
        entry == (if index < REGISTER_COUNT {
            Some(entry_of(index as int))
        } else {
            None
        }),
{
    if index < REGISTER_COUNT {
        Some(entry_at(index))
    } else {
        None
    }
}

/// The table itself.
pub(crate) fn entry_at(index: usize) -> (entry: RegisterEntry)
    requires
        index < REGISTER_COUNT,
    ensures
        entry == entry_of(index as int),
{
    match index {
        0 => RegisterEntry { offset: 0x00, label: "EEPROM signature found" },
        1 => RegisterEntry { offset: 0x01, label: "MAC Address [7:0]" },
        2 => RegisterEntry { offset: 0x01, label: "MAC Address [15:8]" },
        3 => RegisterEntry { offset: 0x01, label: "MAC Address [23:16]" },
        4 => RegisterEntry { offset: 0x01, label: "MAC Address [31:24]" },
        5 => RegisterEntry { offset: 0x01, label: "MAC Address [39:32]" },
        6 => RegisterEntry { offset: 0x01, label: "MAC Address [47:40]" },
        7 => RegisterEntry { offset: 0x07, label: "Wakeup Enables" },
        8 => RegisterEntry { offset: 0x08, label: "RESERVED (0x00)" },
        9 => RegisterEntry { offset: 0x09, label: "GPIO PME Flags 0" },
        10 => RegisterEntry { offset: 0x0a, label: "GPIO PME Flags 1" },
        11 => RegisterEntry { offset: 0x0b, label: "LED Configuration 0" },
        12 => RegisterEntry { offset: 0x0c, label: "LED Configuration 1" },
        13 => RegisterEntry { offset: 0x0d, label: "LED Configuration 2" },
        14 => RegisterEntry { offset: 0x0e, label: "Wakeup Polarity" },
        15 => RegisterEntry { offset: 0x0f, label: "RESERVED (0x00)" },
        16 => RegisterEntry { offset: 0x10, label: "Full-Speed Polling Interval for Interrupt Endpoint" },
        17 => RegisterEntry { offset: 0x11, label: "High-Speed Polling Interval for Interrupt Endpoint" },
        18 => RegisterEntry { offset: 0x12, label: "SuperSpeed Polling Interval for Interrupt Endpoint" },
        19 => RegisterEntry { offset: 0x13, label: "Configuration Flags 0 [7:0]" },
        20 => RegisterEntry { offset: 0x14, label: "Configuration Flags 0 [15:8]" },
        21 => RegisterEntry { offset: 0x15, label: "Configuration Flags 0 [23:16]" },
        22 => RegisterEntry { offset: 0x16, label: "Configuration Flags 0 [31:24]" },
        23 => RegisterEntry { offset: 0x17, label: "Configuration Flags 1 [7:0]" },
        24 => RegisterEntry { offset: 0x18, label: "Configuration Flags 1 [15:8]" },
        25 => RegisterEntry { offset: 0x19, label: "Configuration Flags 1 [23:16]" },
        26 => RegisterEntry { offset: 0x1a, label: "Configuration Flags 1 [31:24]" },
        27 => RegisterEntry { offset: 0x1b, label: "Configuration Flags 2 [7:0]" },
        28 => RegisterEntry { offset: 0x1c, label: "Configuration Flags 2 [15:8]" },
        29 => RegisterEntry { offset: 0x1d, label: "Configuration Flags 2 [23:16]" },
        30 => RegisterEntry { offset: 0x1e, label: "Configuration Flags 2 [31:24]" },
        31 => RegisterEntry { offset: 0x1f, label: "Configuration Flags 3 [7:0]" },
        32 => RegisterEntry { offset: 0x20, label: "Configuration Flags 3 [15:8]" },
        33 => RegisterEntry { offset: 0x21, label: "Configuration Flags 3 [23:16]" },
        34 => RegisterEntry { offset: 0x22, label: "Configuration Flags 3 [31:24]" },
        35 => RegisterEntry { offset: 0x23, label: "Language ID [7:0]" },
        36 => RegisterEntry { offset: 0x24, label: "Language ID [15:8]" },
        37 => RegisterEntry { offset: 0x25, label: "Manufacturer ID String Descriptor Length (bytes)" },
        38 => RegisterEntry { offset: 0x26, label: "Manufacturer ID String Descriptor EEPROM Word Offset" },
        39 => RegisterEntry { offset: 0x27, label: "Product Name String Descriptor Length (bytes)" },
        40 => RegisterEntry { offset: 0x28, label: "Product Name String Descriptor EEPROM Word Offset" },
        41 => RegisterEntry { offset: 0x29, label: "Serial Number String Descriptor Length (bytes)" },
        42 => RegisterEntry { offset: 0x2a, label: "Serial Number String Descriptor EEPROM Word Offset" },
        43 => RegisterEntry { offset: 0x2b, label: "Configuration String Descriptor Length (bytes)" },
        44 => RegisterEntry { offset: 0x2c, label: "Configuration String Descriptor Word Offset" },
        45 => RegisterEntry { offset: 0x2d, label: "Interface String Descriptor Length (bytes)" },
        46 => RegisterEntry { offset: 0x2e, label: "Interface String Descriptor Word Offset" },
        47 => RegisterEntry { offset: 0x2f, label: "Binary Object Store (BOS) Block Length (Bytes)" },
        48 => RegisterEntry { offset: 0x30, label: "Binary Object Store (BOS) Block Word Offset" },
        49 => RegisterEntry { offset: 0x31, label: "SuperSpeed Device Descriptor Length (bytes)" },
        50 => RegisterEntry { offset: 0x32, label: "SuperSpeed Device Descriptor Word Offset" },
        51 => RegisterEntry { offset: 0x33, label: "SuperSpeed Configuration Block Length (bytes)" },
        52 => RegisterEntry { offset: 0x34, label: "SuperSpeed Configuration Block Word Offset" },
        53 => RegisterEntry { offset: 0x35, label: "High-Speed Device Descriptor Length (bytes)" },
        54 => RegisterEntry { offset: 0x36, label: "High-Speed Device Descriptor Word Offset" },
        55 => RegisterEntry { offset: 0x37, label: "High-Speed Configuration and Interface Descriptor Length (bytes)" },
        56 => RegisterEntry { offset: 0x38, label: "High-Speed Configuration and Interface Descriptor Word Offset" },
        57 => RegisterEntry { offset: 0x39, label: "Full-Speed Device Descriptor Length (bytes)" },
        58 => RegisterEntry { offset: 0x3a, label: "Full-Speed Device Descriptor Word Offset" },
        59 => RegisterEntry { offset: 0x3b, label: "Full-Speed Configuration and Interface Descriptor Length (bytes)" },
        60 => RegisterEntry { offset: 0x3c, label: "Full-Speed Configuration and Interface Descriptor Word Offset" },
        61 => RegisterEntry { offset: 0x3d, label: "Wake Frame Filter 0 Configuration and Mask Length (bytes)" },
        62 => RegisterEntry { offset: 0x3e, label: "Wake Frame Filter 0 Configuration and Mask Word Offset" },
        63 => RegisterEntry { offset: 0x3f, label: "LTM BELT and Inactivity Timer Length (bytes)" },
        64 => RegisterEntry { offset: 0x40, label: "LTM BELT and Inactivity Timer Word Offset" },
        65 => RegisterEntry { offset: 0x41, label: "Common Test Bus In Length (bytes)" },
        66 => RegisterEntry { offset: 0x42, label: "Common Test Bus In Word Offset (bytes)" },
        67 => RegisterEntry { offset: 0x43, label: "RESERVED (0x20)" },
        68 => RegisterEntry { offset: 0x44, label: "RESERVED (0x00)" },
        69 => RegisterEntry { offset: 0x46, label: "SW Descriptor Length (bytes)" },
        70 => RegisterEntry { offset: 0x47, label: "SW Descriptor Word Offset (bytes)" },
        71 => RegisterEntry { offset: 0x48, label: "GPIO Configuration" },
        72 => RegisterEntry { offset: 0x49, label: "GPIO Configuration" },
        73 => RegisterEntry { offset: 0x4a, label: "GPIO Configuration" },
        74 => RegisterEntry { offset: 0x4b, label: "GPIO Configuration" },
        75 => RegisterEntry { offset: 0x4c, label: "GPIO Configuration" },
        76 => RegisterEntry { offset: 0x4d, label: "GPIO Configuration" },
        77 => RegisterEntry { offset: 0x4e, label: "GPIO Configuration" },
        78 => RegisterEntry { offset: 0x4f, label: "GPIO Configuration" },
        79 => RegisterEntry { offset: 0x50, label: "RESERVED (0x00)" },
        80 => RegisterEntry { offset: 0x51, label: "RESERVED (0x00)" },
        81 => RegisterEntry { offset: 0x52, label: "RESERVED (0x00)" },
        82 => RegisterEntry { offset: 0x53, label: "RESERVED (0x00)" },
        83 => RegisterEntry { offset: 0x54, label: "RESERVED (0x00)" },
        84 => RegisterEntry { offset: 0x55, label: "RESERVED (0x00)" },
        85 => RegisterEntry { offset: 0x56, label: "RESERVED (0x00)" },
        86 => RegisterEntry { offset: 0x57, label: "RESERVED (0x00)" },
        87 => RegisterEntry { offset: 0x58, label: "LED Configuration 3" },
        88 => RegisterEntry { offset: 0x59, label: "LED Configuration 4" },
        89 => RegisterEntry { offset: 0x5a, label: "RESERVED (0x??)" },
        90 => RegisterEntry { offset: 0x5b, label: "RESERVED (0x??)" },
        91 => RegisterEntry { offset: 0x5c, label: "RESERVED (0x??)" },
        92 => RegisterEntry { offset: 0x5d, label: "RESERVED (0x??)" },
        93 => RegisterEntry { offset: 0x5e, label: "RESERVED (0x??)" },
        94 => RegisterEntry { offset: 0x5f, label: "RESERVED (0x??)" },
        _ => RegisterEntry { offset: 0x61, label: "RESERVED (0x??)" },
    }
}

/// Builds the register map.
pub fn register_map() -> (map: Vec<RegisterEntry>)
    ensures
        map@ == register_map_of(),
{
    let mut map: Vec<RegisterEntry> = Vec::new();
    let mut index: usize = 0;
    while index < REGISTER_COUNT
        invariant
            index <= REGISTER_COUNT,
            map@.len() == index,
            forall|k: int| 0 <= k < index ==> map@[k] == entry_of(k),
        decreases REGISTER_COUNT - index,
    {
        map.push(entry_at(index));
        index = index + 1;
    }
    map
}

/// The offsets of the map never decrease from one entry to the next, and
/// every one of them lies below `IMAGE_MIN_LEN`.
pub proof fn lemma_offsets_ascending(i: int, j: int)
    requires
        0 <= i <= j < REGISTER_COUNT,
    ensures
        entry_of(i).offset <= entry_of(j).offset,
        entry_of(j).offset < IMAGE_MIN_LEN,
{
}

/// Apart from the six MAC address entries, which share offset 0x01, no two
/// entries of the map have the same offset.
pub proof fn lemma_offsets_distinct(i: int, j: int)
    requires
        0 <= i < j < REGISTER_COUNT,
        j > MAC_LAST_INDEX,
    ensures
        entry_of(i).offset < entry_of(j).offset,
{
}

/// Offsets 0x45 and 0x60 are gaps: no entry of the map has them.
pub proof fn lemma_gaps(index: int)
    requires
        0 <= index < REGISTER_COUNT,
    ensures
        entry_of(index).offset != 0x45,
        entry_of(index).offset != 0x60,
{
}

} // verus!
