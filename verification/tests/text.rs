use design_patterns::text::{
    clone_optional, clone_pairs, clone_texts, compact2_text, decimal, digit_text, fixed2_text, line_before, one_line,
    push_line, replace_all, signed_fixed2_text, trim, white_space,
};

#[test]
fn decimal_writes_numbers() {
    assert_eq!(decimal(0), "0");
    assert_eq!(decimal(9), "9");
    assert_eq!(decimal(10), "10");
    assert_eq!(decimal(1234567890), "1234567890");
    assert_eq!(decimal(u128::MAX), u128::MAX.to_string());
    assert_eq!(digit_text(0), "0");
    assert_eq!(digit_text(9), "9");
}

#[test]
fn fixed2_writes_two_decimals() {
    assert_eq!(fixed2_text(0), "0.00");
    assert_eq!(fixed2_text(7), "0.07");
    assert_eq!(fixed2_text(70), "0.70");
    assert_eq!(fixed2_text(10550), "105.50");
    assert_eq!(fixed2_text(25000), format!("{:.2}", 250.0_f64));
    assert_eq!(signed_fixed2_text(-455), "-4.55");
    assert_eq!(signed_fixed2_text(-5), "-0.05");
    assert_eq!(signed_fixed2_text(0), "0.00");
    assert_eq!(signed_fixed2_text(i128::MAX), "1701411834604692317316873037158841057.27");
    assert_eq!(signed_fixed2_text(i128::MIN), "-1701411834604692317316873037158841057.28");
}

#[test]
fn compact2_drops_needless_decimals() {
    assert_eq!(compact2_text(15000), "150");
    assert_eq!(compact2_text(15000), format!("{}", 150.0_f64));
    assert_eq!(compact2_text(110), "1.1");
    assert_eq!(compact2_text(110), format!("{}", 1.1_f64));
    assert_eq!(compact2_text(199), "1.99");
    assert_eq!(compact2_text(5), "0.05");
    assert_eq!(compact2_text(0), "0");
}

#[test]
fn replace_all_agrees_with_str_replace() {
    let cases = [
        ("compressed(encrypted(x))", "compressed(", ""),
        ("a)b)c)", ")", ""),
        ("aaaa", "aa", "b"),
        ("aaa", "aa", "b"),
        ("abcabc", "abc", "abcabc"),
        ("", "a", "b"),
        ("abc", "abcd", "x"),
        ("abc", "", "-"),
        ("", "", "-"),
        ("h\u{e9}llo w\u{f6}rld", "\u{f6}", "oe"),
        (":) :( :)", ":)", "\u{1F60A}"),
        ("xxabxx", "ab", ""),
    ];
    for (text, from, to) in cases {
        assert_eq!(replace_all(text, from, to), text.replace(from, to), "{:?} {:?} {:?}", text, from, to);
    }
    assert_eq!(replace_all("aaa", "aa", "b"), "ba");
    assert_eq!(replace_all("abc", "", "-"), "-a-b-c-");
}

#[test]
fn white_space_agrees_with_char_is_whitespace() {
    let mut code: u32 = 0;
    while code <= 0x10FFFF {
        if let Some(c) = char::from_u32(code) {
            assert_eq!(white_space(c), c.is_whitespace(), "U+{:04X}", code);
        }
        code += 1;
    }
}

#[test]
fn trim_agrees_with_str_trim() {
    let cases = [
        "  hello, world!  ",
        "",
        "   ",
        "x",
        " x",
        "x ",
        "\t\n a b \r\n",
        "\u{3000}wide\u{2003}",
        "a  b",
        "\u{85}\u{a0}inner \u{1680} space\u{2028}\u{2029}",
    ];
    for text in cases {
        assert_eq!(trim(text), text.trim(), "{:?}", text);
    }
    assert_eq!(trim("  hello, world!  "), "hello, world!");
}

#[test]
fn lists_of_lines_and_copies() {
    let mut lines = one_line("a".to_string());
    push_line(&mut lines, "b".to_string());
    assert_eq!(lines, vec!["a", "b"]);
    assert_eq!(line_before("z".to_string(), lines), vec!["z", "a", "b"]);
    let pairs = vec![("k".to_string(), "v".to_string()), ("k2".to_string(), "v2".to_string())];
    assert_eq!(clone_pairs(&pairs), pairs);
    assert_eq!(clone_texts(&vec!["x".to_string(), "y".to_string()]), vec!["x", "y"]);
    assert_eq!(clone_optional(&Some("s".to_string())), Some("s".to_string()));
    assert_eq!(clone_optional(&None), None);
}
