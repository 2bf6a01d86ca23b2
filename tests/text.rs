use upload_stick::text::{decimal_string, lines, parse_u64, split_str, trim_str, words};

#[test]
fn trimming_unicode_whitespace() {
    assert_eq!(trim_str("  \t a b \n"), "a b");
    assert_eq!(trim_str("\u{3000}x\u{a0}"), "x");
    assert_eq!(trim_str("   "), "");
    assert_eq!(trim_str(""), "");
}

#[test]
fn splitting_keeps_empty_pieces() {
    assert_eq!(split_str("a::b:", ':'), vec!["a", "", "b", ""]);
    assert_eq!(split_str("", ':'), vec![""]);
    assert_eq!(split_str("abc", ':'), vec!["abc"]);
}

#[test]
fn lines_like_std() {
    for s in ["", "\n", "a", "a\n", "a\nb", "a\r\nb\r\n", "a\r", "\n\nx\n", "x\r\r\n"] {
        let expected: Vec<String> = s.lines().map(|l| l.to_string()).collect();
        assert_eq!(lines(s), expected, "lines of {:?}", s);
    }
}

#[test]
fn words_like_std() {
    for s in ["", "  ", "a", " a  b\tc\n", "x\u{2003}y", "158 0 20232"] {
        let expected: Vec<String> = s.split_whitespace().map(|w| w.to_string()).collect();
        assert_eq!(words(s), expected, "words of {:?}", s);
    }
}

#[test]
fn parsing_like_std() {
    for s in ["0", "+7", "007", "", "+", "-1", "1 ", "18446744073709551615", "18446744073709551616", "99999999999999999999x", "１"] {
        assert_eq!(parse_u64(s), s.parse::<u64>().ok(), "parse of {:?}", s);
    }
}

#[test]
fn decimal_writing() {
    assert_eq!(decimal_string(0), "0");
    assert_eq!(decimal_string(10), "10");
    assert_eq!(decimal_string(u64::MAX), "18446744073709551615");
}
