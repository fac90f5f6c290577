use netmount::text::{
    chars_of, decimal_text, holds_at, holds_text, is_lowered, is_space_char, lower_char, trim,
};

#[test]
fn decimal_of_small_and_large_numbers() {
    assert_eq!(decimal_text(0), "0");
    assert_eq!(decimal_text(7), "7");
    assert_eq!(decimal_text(10), "10");
    assert_eq!(decimal_text(109), "109");
    assert_eq!(decimal_text(4242), "4242");
    assert_eq!(decimal_text(1_000_000), "1000000");
    assert_eq!(decimal_text(u32::MAX), "4294967295");
}

#[test]
fn decimal_agrees_with_the_standard_library() {
    let mut n: u32 = 1;
    for _ in 0..40 {
        assert_eq!(decimal_text(n), n.to_string());
        n = n.wrapping_mul(7).wrapping_add(3);
    }
}

#[test]
fn only_ascii_capitals_are_lowered() {
    assert_eq!(lower_char('A'), 'a');
    assert_eq!(lower_char('Z'), 'z');
    assert_eq!(lower_char('a'), 'a');
    assert_eq!(lower_char('@'), '@');
    assert_eq!(lower_char('['), '[');
    assert_eq!(lower_char('É'), 'É');
    for c in ['A', 'q', '0', 'Ä', '\u{0}', 'Z'] {
        assert_eq!(lower_char(c), c.to_ascii_lowercase());
    }
}

#[test]
fn chars_of_a_text_are_its_characters() {
    assert_eq!(chars_of(""), Vec::<char>::new());
    assert_eq!(chars_of("aé𝄞"), vec!['a', 'é', '𝄞']);
}

#[test]
fn lowered_text_is_compared_with_a_word() {
    assert!(is_lowered(&chars_of("API_Key"), "api_key"));
    assert!(is_lowered(&chars_of(""), ""));
    assert!(!is_lowered(&chars_of("api_key"), "API_KEY"));
    assert!(!is_lowered(&chars_of("api_keys"), "api_key"));
    assert!(!is_lowered(&chars_of("api"), "api_key"));
}

#[test]
fn a_part_is_found_anywhere_in_a_text() {
    let text = chars_of("abcabd");
    assert!(holds_text(&text, &chars_of("abd")));
    assert!(holds_text(&text, &chars_of("abc")));
    assert!(holds_text(&text, &chars_of("")));
    assert!(holds_text(&text, &chars_of("abcabd")));
    assert!(!holds_text(&text, &chars_of("abcabda")));
    assert!(!holds_text(&text, &chars_of("acb")));
    assert!(holds_text(&chars_of(""), &chars_of("")));
    assert!(!holds_text(&chars_of(""), &chars_of("a")));
    assert!(holds_at(&text, &chars_of("cab"), 2));
    assert!(!holds_at(&text, &chars_of("cab"), 1));
    assert!(holds_at(&text, &chars_of(""), 6));
    assert!(!holds_at(&text, &chars_of(""), 7));
    assert!(!holds_at(&text, &chars_of("d"), 6));
    assert!(!holds_at(&text, &chars_of("bd"), usize::MAX));
}

#[test]
fn trim_agrees_with_the_standard_library() {
    for text in [
        "",
        " ",
        "a",
        "  a  ",
        "\t\r\n out.zip \u{a0}\u{3000}",
        "a b",
        " \u{85}\u{1680}\u{2000}\u{200a}\u{2028}\u{2029}\u{202f}\u{205f}x",
        "\u{200b}x\u{200b}",
        "\u{1f}x\u{1c}",
        "x\u{feff}",
        "   ",
        "ü ",
    ] {
        assert_eq!(trim(text), text.trim());
    }
}

#[test]
fn white_space_agrees_with_the_standard_library() {
    let mut c = 0u32;
    while c < 0x3100 {
        if let Some(ch) = char::from_u32(c) {
            assert_eq!(is_space_char(ch), ch.is_whitespace());
        }
        c += 1;
    }
    assert!(!is_space_char('\u{10ffff}'));
}
