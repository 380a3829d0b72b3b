use deroff::chars::CharClass;
use deroff::Deroffer;

#[test]
fn test_not_whitespace() {
    let mut d = Deroffer::new();

    assert_eq!(d.not_whitespace(0), false);
    assert_eq!(d.not_whitespace(9), false);
    d.set_line("ab cd");
    assert_eq!(d.not_whitespace(2), false);
    assert_eq!(d.not_whitespace(3), true);
}

#[test]
fn test_str_at() {
    let mut d = Deroffer::new();

    // The line is empty.
    assert_eq!(d.str_at(1), "");

    d.set_line("ab cd");
    assert_eq!(d.str_at(42), "");
    assert_eq!(d.str_at(1), "b");

    d.set_line("🗻");
    assert_eq!(d.str_at(0), "🗻");
    assert_eq!(d.str_at(1), "");
}

#[test]
fn test_is_white() {
    let mut d = Deroffer::new();
    assert_eq!(d.is_white(1), false);

    d.set_line("ab cd");
    assert_eq!(d.is_white(42), false); // past the end
    assert_eq!(d.is_white(1), false); // "b"
    assert_eq!(d.is_white(2), true); // " "
    assert_eq!(d.is_white(3), false); // "c"
}

#[test]
fn peek_counts_characters_not_bytes() {
    let mut d = Deroffer::new();
    d.set_line("é🗻x");
    assert_eq!(d.peek(0), Some('é'));
    assert_eq!(d.peek(1), Some('🗻'));
    assert_eq!(d.peek(2), Some('x'));
    assert_eq!(d.peek(3), None);
    assert_eq!(d.remaining(), 3);
}

#[test]
fn skip_char_stops_at_the_end() {
    let mut d = Deroffer::new();
    d.set_line("é🗻x");
    d.skip_char(2);
    assert_eq!(d.line(), "x");
    d.skip_char(5);
    assert_eq!(d.line(), "");
    d.skip_char(1);
    assert_eq!(d.line(), "");
}

#[test]
fn skip_leading_whitespace_drops_all_kinds_of_space() {
    let mut d = Deroffer::new();
    d.set_line(" \t\u{a0}\u{2003}\n x ");
    d.skip_leading_whitespace();
    assert_eq!(d.line(), "x ");
    d.skip_leading_whitespace();
    assert_eq!(d.line(), "x ");
}

#[test]
fn digit_knows_the_ten_digits_only() {
    let mut d = Deroffer::new();
    d.set_line("09a\u{663}");
    assert!(d.digit(0));
    assert!(d.digit(1));
    assert!(!d.digit(2));
    assert!(!d.digit(3));
    assert!(!d.digit(4));
}

#[test]
fn white_space_is_what_std_calls_white_space() {
    let mut code: u32 = 0;
    while code <= 0x10FFFF {
        if let Some(c) = char::from_u32(code) {
            assert_eq!(deroff::chars::space(c), c.is_whitespace(), "{:x}", code);
        }
        code += 1;
    }
}

#[test]
fn alphabetic_class_follows_std() {
    for c in ['a', 'Z', 'é', 'λ', '中'] {
        assert!(CharClass::Alpha.contains(c));
    }
    for c in ['1', ' ', '(', ';', '\n', '_'] {
        assert!(!CharClass::Alpha.contains(c));
    }
}

#[test]
fn strings_and_character_vectors_convert_both_ways() {
    let text = "a\\b 🗻\n";
    let chars = deroff::chars::to_chars(text);
    assert_eq!(chars, text.chars().collect::<Vec<char>>());
    assert_eq!(deroff::chars::to_string(&chars), text);
    assert_eq!(deroff::chars::to_string(&Vec::new()), "");
}
