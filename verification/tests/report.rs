use eeprom_decode::error::DecodeError;
use eeprom_decode::led::LedControlCode;
use eeprom_decode::registers::register_map;
use eeprom_decode::registers::RegisterEntry;
use eeprom_decode::render::render;
use eeprom_decode::render::render_all;
use eeprom_decode::render::report;
use eeprom_decode::report::decode;
use eeprom_decode::report::expansion;
use eeprom_decode::report::BitField;
use eeprom_decode::report::ReportLine;

fn sample_image() -> Vec<u8> {
    let mut image: Vec<u8> = (0..0x80u32).map(|i| (i * 7 + 3) as u8).collect();
    image[0x00] = 0xa5;
    image[0x01] = 0x00;
    image[0x02] = 0x80;
    image[0x03] = 0x0f;
    image[0x04] = 0x11;
    image[0x05] = 0x22;
    image[0x06] = 0x33;
    image[0x07] = 0b1000_0001;
    image[0x09] = 0b0100_0010;
    image[0x0a] = 0b1010_1101;
    image[0x0b] = 0b0000_1010;
    image[0x0c] = 0x21;
    image[0x0d] = 0x7e;
    image
}

fn register_lines(lines: &[ReportLine]) -> Vec<(RegisterEntry, u8)> {
    let mut found = Vec::new();
    for line in lines {
        if let ReportLine::Register { entry, value } = line {
            found.push((*entry, *value));
        }
    }
    found
}

#[test]
fn decode_emits_one_register_line_per_entry_in_order() {
    let image = sample_image();
    let lines = decode(&image).unwrap();
    let found = register_lines(&lines);
    let map = register_map();
    assert_eq!(found.len(), map.len());
    for (index, (entry, value)) in found.iter().enumerate() {
        assert_eq!(*entry, map[index]);
        assert_eq!(*value, image[entry.offset as usize]);
    }
    for pair in found.windows(2) {
        assert!(pair[0].0.offset <= pair[1].0.offset);
    }
}

#[test]
fn decode_holds_for_an_image_of_exactly_the_needed_length() {
    let mut image = vec![0u8; 0x62];
    image[0] = 0xa5;
    image[0x61] = 0x5a;
    let lines = decode(&image).unwrap();
    let found = register_lines(&lines);
    assert_eq!(found.len(), 96);
    assert_eq!(found[95], (RegisterEntry { offset: 0x61, label: "RESERVED (0x??)" }, 0x5a));
}

#[test]
fn decode_shows_the_same_byte_for_all_six_mac_entries() {
    let image = sample_image();
    let lines = decode(&image).unwrap();
    for index in 1..=6 {
        match lines[index] {
            ReportLine::Register { entry, value } => {
                assert_eq!(entry.offset, 0x01);
                assert_eq!(value, image[0x01]);
            }
            _ => panic!("no register line at {}", index),
        }
    }
    assert_eq!(
        lines[7],
        ReportLine::MacAddress { address: [0x00, 0x80, 0x0f, 0x11, 0x22, 0x33] }
    );
}

#[test]
fn decode_puts_each_expansion_behind_its_register() {
    let image = sample_image();
    let lines = decode(&image).unwrap();
    let at = |offset: u8| {
        lines
            .iter()
            .position(|line| match line {
                ReportLine::Register { entry, .. } => entry.offset == offset,
                _ => false,
            })
            .unwrap()
    };
    let wake = at(0x07);
    for i in 0..8usize {
        match lines[wake + 1 + i] {
            ReportLine::Bit { field } => {
                assert_eq!(field.index as usize, 7 - i);
                assert_eq!(field.byte, image[0x07]);
            }
            _ => panic!("no bit line"),
        }
    }
    assert!(matches!(lines[wake + 9], ReportLine::Register { .. }));
    let flags = at(0x0a);
    assert_eq!(lines[flags + 1], ReportLine::ReservedBits { bits: 0b10_1011 });
    assert_eq!(
        lines[flags + 2],
        ReportLine::Bit {
            field: BitField { byte: 0b1010_1101, index: 1, label: "PME Broadcast Packet Enabl" }
        }
    );
    assert_eq!(
        lines[flags + 3],
        ReportLine::Bit {
            field: BitField { byte: 0b1010_1101, index: 0, label: "PME WUFF Enable" }
        }
    );
    let led1 = at(0x0c);
    assert_eq!(lines[led1 + 1], ReportLine::LedControl { led: 1, code: 2 });
    assert_eq!(lines[led1 + 2], ReportLine::LedMode { mode: LedControlCode::Link100Activity });
    assert_eq!(lines[led1 + 3], ReportLine::LedControl { led: 0, code: 1 });
    assert_eq!(lines[led1 + 4], ReportLine::LedMode { mode: LedControlCode::Link1000Activity });
    let led2 = at(0x0d);
    assert_eq!(led2, led1 + 5);
    assert_eq!(lines[led2 + 1], ReportLine::LedControl { led: 3, code: 7 });
    assert_eq!(lines[led2 + 2], ReportLine::LedMode { mode: LedControlCode::Reserved(7) });
    assert_eq!(lines[led2 + 3], ReportLine::LedControl { led: 2, code: 0x0e });
    assert_eq!(lines[led2 + 4], ReportLine::LedMode { mode: LedControlCode::ForceOff });
}

#[test]
fn decode_counts_its_lines() {
    let image = sample_image();
    let lines = decode(&image).unwrap();
    assert_eq!(lines.len(), 96 + 1 + 8 + 8 + 3 + 4 + 4 + 4);
}

#[test]
fn decode_rejects_a_wrong_signature() {
    let mut image = sample_image();
    image[0] = 0x00;
    assert_eq!(decode(&image), Err(DecodeError::Signature { found: 0x00 }));
    image[0] = 0x5a;
    assert_eq!(decode(&image), Err(DecodeError::Signature { found: 0x5a }));
    assert_eq!(report(&image), Err(DecodeError::Signature { found: 0x5a }));
}

#[test]
fn decode_judges_the_signature_before_the_length() {
    assert_eq!(decode(&[0x00]), Err(DecodeError::Signature { found: 0x00 }));
    assert_eq!(decode(&[0xa4, 1, 2]), Err(DecodeError::Signature { found: 0xa4 }));
}

#[test]
fn decode_rejects_a_short_image() {
    assert_eq!(decode(&[]), Err(DecodeError::Bounds { start: 0, end: 0x62, len: 0 }));
    assert_eq!(decode(&[0xa5]), Err(DecodeError::Bounds { start: 0, end: 0x62, len: 1 }));
    let mut image = vec![0u8; 0x61];
    image[0] = 0xa5;
    assert_eq!(decode(&image), Err(DecodeError::Bounds { start: 0, end: 0x62, len: 0x61 }));
    assert_eq!(report(&image), Err(DecodeError::Bounds { start: 0, end: 0x62, len: 0x61 }));
}

#[test]
fn decode_twice_gives_the_same_report() {
    let image = sample_image();
    let before = image.clone();
    let first = decode(&image);
    let second = decode(&image);
    assert_eq!(first, second);
    assert_eq!(image, before);
    assert_eq!(report(&image), report(&image));
    let mut bad = sample_image();
    bad[0] = 1;
    assert_eq!(decode(&bad), decode(&bad));
}

#[test]
fn expansion_of_gpio_wake_is_eight_bits_highest_first() {
    let lines = expansion(0x07, 0b1000_0001);
    let labels = [
        "GPIOWK7", "GPIOWK6", "GPIOWK5", "GPIOWK4", "GPIOWK3", "GPIOWK2", "GPIOWK1", "GPIOWK0",
    ];
    assert_eq!(lines.len(), 8);
    for i in 0..8usize {
        assert_eq!(
            lines[i],
            ReportLine::Bit {
                field: BitField { byte: 0b1000_0001, index: (7 - i) as u8, label: labels[i] }
            }
        );
    }
    let values: Vec<u8> = lines
        .iter()
        .map(|line| match line {
            ReportLine::Bit { field } => field.value(),
            _ => panic!("no bit line"),
        })
        .collect();
    assert_eq!(values, vec![1, 0, 0, 0, 0, 0, 0, 1]);
}

#[test]
fn expansion_of_pme_flags_0_labels_every_bit() {
    let lines = expansion(0x09, 0xff);
    let labels: Vec<&str> = lines
        .iter()
        .map(|line| match line {
            ReportLine::Bit { field } => field.label,
            _ => panic!("no bit line"),
        })
        .collect();
    assert_eq!(
        labels,
        vec![
            "GPIO PME Enable",
            "GPIO PME Configuration",
            "GPIO PME Length",
            "GPIO PME Polarity",
            "GPIO PME Buffer Type",
            "PHY Link Change Enable",
            "PME Packet Enable",
            "PME Perfect DA Enable",
        ]
    );
}

#[test]
fn expansion_of_led_configuration_0_is_four_enables() {
    let lines = expansion(0x0b, 0b1111_1010);
    assert_eq!(
        lines,
        vec![
            ReportLine::Bit {
                field: BitField { byte: 0b1111_1010, index: 3, label: "LED3 Enable (LED3_EN)" }
            },
            ReportLine::Bit {
                field: BitField { byte: 0b1111_1010, index: 2, label: "LED2 Enable (LED2_EN)" }
            },
            ReportLine::Bit {
                field: BitField { byte: 0b1111_1010, index: 1, label: "LED1 Enable (LED1_EN)" }
            },
            ReportLine::Bit {
                field: BitField { byte: 0b1111_1010, index: 0, label: "LED0 Enable (LED0_EN)" }
            },
        ]
    );
}

#[test]
fn expansion_of_a_plain_register_is_empty() {
    assert_eq!(expansion(0x00, 0xa5), vec![]);
    assert_eq!(expansion(0x08, 0xff), vec![]);
    assert_eq!(expansion(0x0e, 0xff), vec![]);
    assert_eq!(expansion(0x61, 0xff), vec![]);
}

#[test]
fn render_register_line() {
    let line = ReportLine::Register {
        entry: RegisterEntry { offset: 0x00, label: "EEPROM signature found" },
        value: 0xa5,
    };
    assert_eq!(render(&line), "0x00: 0xA5: EEPROM signature found");
    let line = ReportLine::Register {
        entry: RegisterEntry { offset: 0x5f, label: "RESERVED (0x??)" },
        value: 0x0c,
    };
    assert_eq!(render(&line), "0x5F: 0x0C: RESERVED (0x??)");
}

#[test]
fn render_mac_address_line() {
    let line = ReportLine::MacAddress { address: [0x00, 0x80, 0x0f, 0xa1, 0xb2, 0xff] };
    assert_eq!(render(&line), "\t0x01 - 0x06 MAC Address: 00:80:0F:A1:B2:FF");
}

#[test]
fn render_bit_line() {
    let line = ReportLine::Bit {
        field: BitField { byte: 0b1000_0000, index: 7, label: "GPIOWK7" },
    };
    assert_eq!(render(&line), "\t7: GPIOWK7: 1");
    let line = ReportLine::Bit {
        field: BitField { byte: 0b1000_0000, index: 0, label: "PME Perfect DA Enable" },
    };
    assert_eq!(render(&line), "\t0: PME Perfect DA Enable: 0");
}

#[test]
fn render_reserved_bits_line() {
    assert_eq!(render(&ReportLine::ReservedBits { bits: 0b10_1011 }), "\t7-2: RESERVED: b101011");
    assert_eq!(render(&ReportLine::ReservedBits { bits: 0 }), "\t7-2: RESERVED: b000000");
    assert_eq!(render(&ReportLine::ReservedBits { bits: 1 }), "\t7-2: RESERVED: b000001");
}

#[test]
fn render_led_control_line() {
    assert_eq!(render(&ReportLine::LedControl { led: 1, code: 0b0010 }), "\tLED1 Control: b0010");
    assert_eq!(render(&ReportLine::LedControl { led: 3, code: 0b1111 }), "\tLED3 Control: b1111");
    assert_eq!(render(&ReportLine::LedControl { led: 0, code: 0 }), "\tLED0 Control: b0000");
}

#[test]
fn report_renders_the_walk() {
    let image = sample_image();
    let texts = report(&image).unwrap();
    let lines = decode(&image).unwrap();
    assert_eq!(texts, render_all(&lines));
    assert_eq!(texts[0], "0x00: 0xA5: EEPROM signature found");
    assert_eq!(texts[1], "0x01: 0x00: MAC Address [7:0]");
    assert_eq!(texts[6], "0x01: 0x00: MAC Address [47:40]");
    assert_eq!(texts[7], "\t0x01 - 0x06 MAC Address: 00:80:0F:11:22:33");
    assert_eq!(texts[8], "0x07: 0x81: Wakeup Enables");
    assert_eq!(texts[9], "\t7: GPIOWK7: 1");
    assert_eq!(texts[16], "\t0: GPIOWK0: 1");
    assert_eq!(texts[17], "0x08: 0x3B: RESERVED (0x00)");
    assert_eq!(texts[18], "0x09: 0x42: GPIO PME Flags 0");
    assert_eq!(texts[19], "\t7: GPIO PME Enable: 0");
    assert_eq!(texts[20], "\t6: GPIO PME Configuration: 1");
    assert_eq!(texts[27], "0x0A: 0xAD: GPIO PME Flags 1");
    assert_eq!(texts[28], "\t7-2: RESERVED: b101011");
    assert_eq!(texts[29], "\t1: PME Broadcast Packet Enabl: 0");
    assert_eq!(texts[30], "\t0: PME WUFF Enable: 1");
    assert_eq!(texts[31], "0x0B: 0x0A: LED Configuration 0");
    assert_eq!(texts[32], "\t3: LED3 Enable (LED3_EN): 1");
    assert_eq!(texts[35], "\t0: LED0 Enable (LED0_EN): 0");
    assert_eq!(texts[36], "0x0C: 0x21: LED Configuration 1");
    assert_eq!(texts[37], "\tLED1 Control: b0010");
    assert_eq!(texts[38], "\t\tLink100/Activity (default for LED1): b0010");
    assert_eq!(texts[39], "\tLED0 Control: b0001");
    assert_eq!(texts[40], "\t\tLink1000/Activity (default for LED0): b0001");
    assert_eq!(texts[41], "0x0D: 0x7E: LED Configuration 2");
    assert_eq!(texts[42], "\tLED3 Control: b0111");
    assert_eq!(texts[43], "\t\tRESERVED: b0111");
    assert_eq!(texts[44], "\tLED2 Control: b1110");
    assert_eq!(
        texts[45],
        "\t\tForce LED Off (suppresses LED blink after reset/coma): b1110"
    );
    assert_eq!(texts[46], "0x0E: 0x65: Wakeup Polarity");
    assert_eq!(texts.last().unwrap(), &format!("0x61: 0x{:02X}: RESERVED (0x??)", image[0x61]));
}

#[test]
fn error_messages() {
    assert_eq!(
        DecodeError::Signature { found: 0 }.message(),
        "0x00: 0: Invalid EEPROM signature, expected: 0xA5"
    );
    assert_eq!(
        DecodeError::Signature { found: 165 }.message(),
        "0x00: 165: Invalid EEPROM signature, expected: 0xA5"
    );
    assert_eq!(
        DecodeError::Signature { found: 90 }.message(),
        "0x00: 90: Invalid EEPROM signature, expected: 0xA5"
    );
    assert_eq!(
        DecodeError::Bounds { start: 0, end: 98, len: 7 }.message(),
        "No bytes 0..98 in an image of 7 bytes"
    );
    assert_eq!(
        DecodeError::Bounds { start: 258, end: 1000, len: 300 }.message(),
        "No bytes 258..1000 in an image of 300 bytes"
    );
}
