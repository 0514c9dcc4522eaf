use ilo4_fan_control::words::{cpu_number, is_whitespace, last_word, parse_u8};

#[test]
fn the_last_word_is_found_behind_any_spaces() {
    assert_eq!(last_word("CPU 2"), Some((4, 5)));
    assert_eq!(last_word("  02-CPU 1 \t\n"), Some((9, 10)));
    assert_eq!(last_word("word"), Some((0, 4)));
    assert_eq!(last_word(""), None);
    assert_eq!(last_word(" \u{3000}\u{a0} "), None);
}

#[test]
fn positions_count_characters() {
    assert_eq!(last_word("\u{e9}t\u{e9} 7"), Some((4, 5)));
    assert_eq!(cpu_number("\u{e9}t\u{e9} 7"), Some(7));
}

#[test]
fn a_byte_is_digits_behind_an_optional_plus() {
    assert_eq!(parse_u8("0", 0, 1), Some(0));
    assert_eq!(parse_u8("255", 0, 3), Some(255));
    assert_eq!(parse_u8("256", 0, 3), None);
    assert_eq!(parse_u8("+7", 0, 2), Some(7));
    assert_eq!(parse_u8("007", 0, 3), Some(7));
    assert_eq!(parse_u8("0000000000000000000255", 0, 22), Some(255));
    assert_eq!(parse_u8("99999999999999999999999", 0, 23), None);
    assert_eq!(parse_u8("+", 0, 1), None);
    assert_eq!(parse_u8("", 0, 0), None);
    assert_eq!(parse_u8("-7", 0, 2), None);
    assert_eq!(parse_u8("7a", 0, 2), None);
    assert_eq!(parse_u8("++7", 0, 3), None);
    assert_eq!(parse_u8("a12b", 1, 3), Some(12));
}

#[test]
fn the_parser_agrees_with_the_standard_one() {
    for word in ["0", "1", "42", "255", "256", "+1", "+", "", "-1", "1 ", "0x1", "00255", "1e1"] {
        let len = word.chars().count();
        assert_eq!(parse_u8(word, 0, len), word.parse::<u8>().ok());
    }
}

#[test]
fn spaces_are_those_of_unicode() {
    let mut code: u32 = 0;
    while code <= 0x3100 {
        if let Some(c) = char::from_u32(code) {
            assert_eq!(is_whitespace(c), c.is_whitespace());
        }
        code += 1;
    }
}

#[test]
fn the_number_of_a_processor_stands_at_the_end_of_its_name() {
    assert_eq!(cpu_number("CPU 1"), Some(1));
    assert_eq!(cpu_number("02-CPU 2"), Some(2));
    assert_eq!(cpu_number("CPU"), None);
    assert_eq!(cpu_number("CPU 1 socket"), None);
    assert_eq!(cpu_number(""), None);
    for name in ["CPU 1", " 17 ", "x\t+3", "4 5 6", "a", "300", "\u{2003}9\u{2003}"] {
        let expected = name.split_whitespace().last().and_then(|w| w.parse::<u8>().ok());
        assert_eq!(cpu_number(name), expected);
    }
}
