use line_logger::text::{capitalize, push_decimal, to_ascii_lower, to_ascii_upper};

#[test]
fn ascii_upper_maps_small_letters_only() {
    assert_eq!(to_ascii_upper('a'), 'A');
    assert_eq!(to_ascii_upper('m'), 'M');
    assert_eq!(to_ascii_upper('z'), 'Z');
    assert_eq!(to_ascii_upper('A'), 'A');
    assert_eq!(to_ascii_upper('`'), '`');
    assert_eq!(to_ascii_upper('{'), '{');
    assert_eq!(to_ascii_upper('7'), '7');
    assert_eq!(to_ascii_upper('\u{e9}'), '\u{e9}');
}

#[test]
fn ascii_lower_maps_capital_letters_only() {
    assert_eq!(to_ascii_lower('A'), 'a');
    assert_eq!(to_ascii_lower('M'), 'm');
    assert_eq!(to_ascii_lower('Z'), 'z');
    assert_eq!(to_ascii_lower('a'), 'a');
    assert_eq!(to_ascii_lower('@'), '@');
    assert_eq!(to_ascii_lower('['), '[');
    assert_eq!(to_ascii_lower(':'), ':');
    assert_eq!(to_ascii_lower('\u{c9}'), '\u{c9}');
}

#[test]
fn case_mapping_agrees_with_std() {
    for code in 0u8..=255 {
        let c = code as char;
        assert_eq!(to_ascii_upper(c), c.to_ascii_uppercase());
        assert_eq!(to_ascii_lower(c), c.to_ascii_lowercase());
    }
}

#[test]
fn capitalize_upper_case_name() {
    assert_eq!(capitalize("ERROR"), "Error");
    assert_eq!(capitalize("WARN"), "Warn");
}

#[test]
fn capitalize_ignores_incoming_case() {
    assert_eq!(capitalize("warn"), "Warn");
    assert_eq!(capitalize("wARN"), "Warn");
    assert_eq!(capitalize("Warn"), "Warn");
    assert_eq!(capitalize("wArN"), "Warn");
}

#[test]
fn capitalize_edges() {
    assert_eq!(capitalize(""), "");
    assert_eq!(capitalize("x"), "X");
    assert_eq!(capitalize("X"), "X");
    assert_eq!(capitalize("9LIVES"), "9lives");
    assert_eq!(capitalize("\u{e9}T\u{c9}"), "\u{e9}t\u{c9}");
}

#[test]
fn push_decimal_single_digits() {
    for n in 0u32..10 {
        let mut text = String::new();
        push_decimal(&mut text, n);
        assert_eq!(text, n.to_string());
    }
}

#[test]
fn push_decimal_exact_values() {
    let mut text = String::new();
    push_decimal(&mut text, 0);
    assert_eq!(text, "0");
    let mut text = String::new();
    push_decimal(&mut text, 10);
    assert_eq!(text, "10");
    let mut text = String::new();
    push_decimal(&mut text, 407);
    assert_eq!(text, "407");
    let mut text = String::new();
    push_decimal(&mut text, 1000000);
    assert_eq!(text, "1000000");
    let mut text = String::new();
    push_decimal(&mut text, u32::MAX);
    assert_eq!(text, "4294967295");
}

#[test]
fn push_decimal_appends() {
    let mut text = String::from("line ");
    push_decimal(&mut text, 42);
    push_decimal(&mut text, 7);
    assert_eq!(text, "line 427");
}

#[test]
fn push_decimal_agrees_with_std() {
    let samples: [u32; 8] = [1, 9, 11, 99, 100, 65535, 65536, 999999999];
    for n in samples {
        let mut text = String::new();
        push_decimal(&mut text, n);
        assert_eq!(text, format!("{}", n));
    }
}
