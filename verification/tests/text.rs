use pipewire_connection::text::{chars_of, parse_u32, text_contains, u32_to_text};

#[test]
fn numbers_are_written_in_decimal() {
    assert_eq!(u32_to_text(0), "0");
    assert_eq!(u32_to_text(9), "9");
    assert_eq!(u32_to_text(10), "10");
    assert_eq!(u32_to_text(1234567890), "1234567890");
    assert_eq!(u32_to_text(4294967295), "4294967295");
}

#[test]
fn numbers_are_read_as_the_standard_library_reads_them() {
    let texts = [
        "", "0", "00", "7", "+7", "-7", "-0", "+", "-", "++1", "+-1", "42", "042", " 42", "42 ",
        "4 2", "4a", "0x10", "4294967295", "4294967296", "42949672950", "00000000004294967295",
        "99999999999999999999999", "1.0", "\u{0661}",
    ];
    for text in texts {
        assert_eq!(parse_u32(text), text.parse::<u32>().ok(), "{:?}", text);
    }
    assert_eq!(parse_u32("+7"), Some(7));
    assert_eq!(parse_u32("4294967296"), None);
}

#[test]
fn reading_gives_back_what_was_written() {
    for n in [0, 1, 9, 10, 99, 100, 65535, 65536, 4294967294, 4294967295] {
        assert_eq!(parse_u32(&u32_to_text(n)), Some(n));
        assert_eq!(u32_to_text(n), n.to_string());
    }
}

#[test]
fn substrings_are_found_as_the_standard_library_finds_them() {
    let texts = ["", "S", "Sink", "Audio/Sink", "Sinking", "SSink", "sink", "Sin", "\u{e9}Sink"];
    for text in texts {
        for pattern in ["", "S", "Sink", "in", "k"] {
            assert_eq!(text_contains(text, pattern), text.contains(pattern));
        }
    }
    assert!(text_contains("Audio/Sink", "Sink"));
    assert!(!text_contains("Audio/Source", "Sink"));
}

#[test]
fn characters_come_in_order() {
    assert_eq!(chars_of("a\u{e9}b"), vec!['a', '\u{e9}', 'b']);
    assert!(chars_of("").is_empty());
}
