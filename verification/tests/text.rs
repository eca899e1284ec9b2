use eeprom_decode::hexdump::image_dump;
use eeprom_decode::hexdump::split_lines;
use eeprom_decode::text::push_binary;
use eeprom_decode::text::push_decimal;
use eeprom_decode::text::push_hex_byte;
use eeprom_decode::text::push_hex_short;
use eeprom_decode::utf16::code_units;
use eeprom_decode::utf16::decode_units;
use eeprom_decode::utf16::decode_utf16le;

#[test]
fn hex_byte_is_two_upper_case_digits() {
    let mut out = String::from(">");
    push_hex_byte(&mut out, 0x00);
    push_hex_byte(&mut out, 0x09);
    push_hex_byte(&mut out, 0x0a);
    push_hex_byte(&mut out, 0xa5);
    push_hex_byte(&mut out, 0xff);
    assert_eq!(out, ">00090AA5FF");
    for value in 0..=255u8 {
        let mut out = String::new();
        push_hex_byte(&mut out, value);
        assert_eq!(out, format!("{:02X}", value));
    }
}

#[test]
fn hex_short_has_two_digits_at_least() {
    for n in 0..=0xffffu16 {
        let mut out = String::new();
        push_hex_short(&mut out, n);
        assert_eq!(out, format!("{:02X}", n));
    }
    let mut out = String::from("@0x");
    push_hex_short(&mut out, 0x1fe);
    assert_eq!(out, "@0x1FE");
}

#[test]
fn binary_digits_start_with_the_highest_bit() {
    let mut out = String::from("b");
    push_binary(&mut out, 0b0110, 4);
    assert_eq!(out, "b0110");
    for value in 0..=255u8 {
        let mut four = String::new();
        push_binary(&mut four, value, 4);
        assert_eq!(four, format!("{:04b}", value & 0x0f));
        let mut six = String::new();
        push_binary(&mut six, value, 6);
        assert_eq!(six, format!("{:06b}", value & 0x3f));
        let mut eight = String::new();
        push_binary(&mut eight, value, 8);
        assert_eq!(eight, format!("{:08b}", value));
    }
    let mut none = String::from("x");
    push_binary(&mut none, 0xff, 0);
    assert_eq!(none, "x");
}

#[test]
fn decimal_has_no_leading_zeros() {
    for n in [0usize, 1, 9, 10, 11, 99, 100, 101, 255, 1000, 65535, 4294967295, usize::MAX] {
        let mut out = String::from("#");
        push_decimal(&mut out, n);
        assert_eq!(out, format!("#{}", n));
    }
}

#[test]
fn code_units_join_bytes_low_byte_first() {
    assert_eq!(code_units(&[]), Vec::<u16>::new());
    assert_eq!(code_units(&[0x41]), Vec::<u16>::new());
    assert_eq!(code_units(&[0x41, 0x00]), vec![0x0041]);
    assert_eq!(code_units(&[0x34, 0x12, 0xff, 0xff, 0x00]), vec![0x1234, 0xffff]);
}

#[test]
fn decode_units_pairs_surrogates() {
    assert_eq!(decode_units(&[]), "");
    assert_eq!(decode_units(&[0x0041, 0x00e9, 0x6771]), "Aé東");
    assert_eq!(decode_units(&[0xd83d, 0xde00]), "\u{1F600}");
    assert_eq!(decode_units(&[0xd800, 0xdc00]), "\u{10000}");
    assert_eq!(decode_units(&[0xdbff, 0xdfff]), "\u{10FFFF}");
    assert_eq!(decode_units(&[0xd7ff, 0xe000, 0xffff]), "\u{d7ff}\u{e000}\u{ffff}");
}

#[test]
fn decode_units_replaces_lone_surrogates() {
    assert_eq!(decode_units(&[0xd800]), "\u{fffd}");
    assert_eq!(decode_units(&[0xdc00]), "\u{fffd}");
    assert_eq!(decode_units(&[0xdc00, 0xd800]), "\u{fffd}\u{fffd}");
    assert_eq!(decode_units(&[0xd800, 0x0041]), "\u{fffd}A");
    assert_eq!(decode_units(&[0xd800, 0xd800, 0xdc00]), "\u{fffd}\u{10000}");
    assert_eq!(decode_units(&[0x0041, 0xdfff, 0x0042]), "A\u{fffd}B");
}

#[test]
fn decode_units_agrees_with_the_standard_library() {
    let interesting: [u16; 12] = [
        0x0000, 0x0041, 0x00ff, 0xd7ff, 0xd800, 0xdbff, 0xdc00, 0xdfff, 0xe000, 0xfffd, 0xffff,
        0x20ac,
    ];
    for a in interesting {
        assert_eq!(decode_units(&[a]), String::from_utf16_lossy(&[a]));
        for b in interesting {
            assert_eq!(decode_units(&[a, b]), String::from_utf16_lossy(&[a, b]));
            for c in interesting {
                assert_eq!(decode_units(&[a, b, c]), String::from_utf16_lossy(&[a, b, c]));
            }
        }
    }
}

#[test]
fn decode_utf16le_reads_what_was_written() {
    for text in ["", "A", "Microchip", "Zürich", "東京", "a\u{1F600}b", "\u{10FFFF}\u{0}"] {
        let mut bytes = Vec::new();
        for unit in text.encode_utf16() {
            bytes.push((unit & 0xff) as u8);
            bytes.push((unit >> 8) as u8);
        }
        assert_eq!(decode_utf16le(&bytes), text);
    }
}

#[test]
fn decode_utf16le_replaces_a_byte_left_over() {
    assert_eq!(decode_utf16le(&[0x41]), "\u{fffd}");
    assert_eq!(decode_utf16le(&[0x41, 0x00, 0x42]), "A\u{fffd}");
    assert_eq!(decode_utf16le(&[0x00, 0xd8, 0x00]), "\u{fffd}\u{fffd}");
}

#[test]
fn split_lines_cuts_at_line_feeds() {
    assert_eq!(split_lines(""), vec![""]);
    assert_eq!(split_lines("one"), vec!["one"]);
    assert_eq!(split_lines("one\ntwo"), vec!["one", "two"]);
    assert_eq!(split_lines("one\ntwo\n"), vec!["one", "two", ""]);
    assert_eq!(split_lines("\n"), vec!["", ""]);
    assert_eq!(split_lines("\n\nx"), vec!["", "", "x"]);
    assert_eq!(split_lines("é\n東京\r\nz"), vec!["é", "東京\r", "z"]);
}

#[test]
fn split_lines_joined_give_the_text() {
    for text in ["", "a", "\n", "a\nb", "a\n\nb\n", "\n\n\n", "no feed at all", "x\ny\nz"] {
        let lines = split_lines(text);
        assert!(lines.len() >= 1);
        assert!(lines.iter().all(|line| !line.contains('\n')));
        assert_eq!(lines.join("\n"), text);
        assert_eq!(lines.len(), text.matches('\n').count() + 1);
    }
}

#[test]
fn image_dump_has_a_title_and_rows_of_sixteen_bytes() {
    let image: Vec<u8> = (0x30..0x30 + 20u8).collect();
    let lines = image_dump(&image);
    assert_eq!(
        lines,
        vec![
            "Length: 20 (0x14) bytes",
            "0000:   30 31 32 33  34 35 36 37  38 39 3a 3b  3c 3d 3e 3f   0123456789:;<=>?",
            "0010:   40 41 42 43                                          @ABC",
        ]
    );
}

#[test]
fn image_dump_of_an_empty_image_is_its_title() {
    assert_eq!(pretty_hex::pretty_hex(&[0u8; 0]), "Length: 0 (0x0) bytes\n");
    assert_eq!(image_dump(&[]), vec!["Length: 0 (0x0) bytes", ""]);
}

#[test]
fn image_dump_is_the_pretty_dump_line_by_line() {
    let image: Vec<u8> = (0..=255u8).collect();
    let lines = image_dump(&image);
    assert_eq!(lines.len(), 17);
    assert_eq!(lines.join("\n"), pretty_hex::pretty_hex(&image));
    assert_eq!(image_dump(&image), image_dump(&image));
}
