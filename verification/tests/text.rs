use deploy::text::{char_is_space, contains_nul, push_decimal, push_signed_decimal, trim};

#[test]
fn trim_removes_surrounding_white_space() {
    assert_eq!(trim("  /tmp/tmp.abc \n"), "/tmp/tmp.abc");
    assert_eq!(trim("\t\n "), "");
    assert_eq!(trim(""), "");
    assert_eq!(trim("a b"), "a b");
    assert_eq!(trim(" a  b\r\n"), "a  b");
    assert_eq!(trim("\u{3000}x\u{85}"), "x");
    assert_eq!(trim("x"), "x");
}

#[test]
fn trim_agrees_with_the_standard_library() {
    let samples = [
        "",
        " ",
        "\u{a0}héllo wörld\u{2003}",
        "\u{feff}bom is no white space ",
        "\u{200b}zero width space is none either\u{200b}",
        "\u{1680}\u{2028}\u{2029}\u{202f}\u{205f}mid\u{2000}\u{200a}",
        "\u{b}\u{c}vertical\u{1c}",
    ];
    for sample in samples {
        assert_eq!(trim(sample), sample.trim());
    }
}

#[test]
fn white_space_is_what_the_standard_library_says() {
    let mut code: u32 = 0;
    while code <= 0x3100 {
        if let Some(c) = char::from_u32(code) {
            assert_eq!(char_is_space(c), c.is_whitespace());
        }
        code += 1;
    }
}

#[test]
fn nul_is_found_anywhere() {
    assert!(contains_nul("a\0b"));
    assert!(contains_nul("\0"));
    assert!(!contains_nul("10.0.0.5"));
    assert!(!contains_nul(""));
}

#[test]
fn decimal_digits_of_numbers() {
    let mut out = String::from("port ");
    push_decimal(&mut out, 22);
    assert_eq!(out, "port 22");
    let mut out = String::new();
    push_decimal(&mut out, 0);
    assert_eq!(out, "0");
    let mut out = String::new();
    push_decimal(&mut out, 65535);
    assert_eq!(out, "65535");
    let mut out = String::new();
    push_decimal(&mut out, u64::MAX);
    assert_eq!(out, "18446744073709551615");
}

#[test]
fn signed_decimal_of_numbers() {
    let mut out = String::new();
    push_signed_decimal(&mut out, -1);
    assert_eq!(out, "-1");
    let mut out = String::new();
    push_signed_decimal(&mut out, i32::MIN);
    assert_eq!(out, "-2147483648");
    let mut out = String::new();
    push_signed_decimal(&mut out, i32::MAX);
    assert_eq!(out, "2147483647");
    let mut out = String::from("status ");
    push_signed_decimal(&mut out, 127);
    assert_eq!(out, "status 127");
}
