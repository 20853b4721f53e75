use gytmdl_gui::decimal::{
    decimal_string, parse_decimal, parse_i64, parse_plus_u32, parse_u32, parse_u64,
    signed_decimal_string, Percentage,
};
use gytmdl_gui::text::{
    chars_of, concat3, contains, ends_with, find, join, same_text, split, starts_with,
    str_is_blank, str_starts_with, string_of, trim,
};

fn c(s: &str) -> Vec<char> {
    s.chars().collect()
}

fn s(v: &[char]) -> String {
    v.iter().collect()
}

#[test]
fn characters_and_back() {
    for text in ["", "abc", "héllo wörld", "日本語", "a\u{301}"] {
        assert_eq!(chars_of(text), c(text));
        assert_eq!(string_of(&c(text)), text);
    }
}

#[test]
fn searching() {
    assert!(contains(&c("hello"), &c("ell")));
    assert!(contains(&c("hello"), &c("")));
    assert!(contains(&c(""), &c("")));
    assert!(contains(&c("hello"), &c("hello")));
    assert!(contains(&c("hello"), &c("o")));
    assert!(!contains(&c("hello"), &c("hello!")));
    assert!(!contains(&c("hello"), &c("lle")));
    assert_eq!(find(&c("abcabc"), &c("bc")), Some(1));
    assert_eq!(find(&c("abcabc"), &c("")), Some(0));
    assert_eq!(find(&c("abcabc"), &c("abc")), Some(0));
    assert_eq!(find(&c("abcabc"), &c("cab")), Some(2));
    assert_eq!(find(&c("abcabc"), &c("x")), None);
    assert_eq!(find(&c(""), &c("x")), None);
    assert_eq!(find(&c("ab"), &c("b")), Some(1));
    assert!(starts_with(&c("hello"), &c("he")));
    assert!(!starts_with(&c("hello"), &c("el")));
    assert!(ends_with(&c("hello"), &c("lo")));
    assert!(!ends_with(&c("hello"), &c("hel")));
    assert!(!ends_with(&c("lo"), &c("hello")));
    assert!(contains(&c("naïve café"), &c("ve ca")));
    assert!(str_starts_with("https://x", "https://"));
    assert!(same_text("a", "a"));
    assert!(!same_text("a", "b"));
    assert!(!same_text("a", "ab"));
}

#[test]
fn trimming() {
    assert_eq!(s(&trim(&c("  a b \t\r\n"))), "a b");
    assert_eq!(s(&trim(&c("\u{a0}\u{3000}x\u{2028}"))), "x");
    assert_eq!(s(&trim(&c("   "))), "");
    assert_eq!(s(&trim(&c(""))), "");
    assert_eq!(s(&trim(&c("x"))), "x");
    assert!(str_is_blank(" \t"));
    assert!(str_is_blank(""));
    assert!(!str_is_blank(" . "));
}

#[test]
fn splitting_and_joining() {
    let parts = |text: &str, sep: char| -> Vec<String> {
        split(&c(text), sep).iter().map(|p| s(p)).collect()
    };
    assert_eq!(parts("a\tb\tc", '\t'), vec!["a", "b", "c"]);
    assert_eq!(parts("", '\t'), vec![""]);
    assert_eq!(parts("\t", '\t'), vec!["", ""]);
    assert_eq!(parts("a\t\tb\t", '\t'), vec!["a", "", "b", ""]);
    assert_eq!(parts("abc", '\t'), vec!["abc"]);
    let words = vec!["a".to_string(), "b".to_string(), "c".to_string()];
    assert_eq!(join(&words, "; "), "a; b; c");
    assert_eq!(join(&words[..1].to_vec(), "; "), "a");
    assert_eq!(join(&Vec::new(), "; "), "");
    assert_eq!(concat3("ab", "", "cd"), "abcd");
}

#[test]
fn reading_numbers() {
    assert_eq!(parse_u64(&c("0")), Some(0));
    assert_eq!(parse_u64(&c("007")), Some(7));
    assert_eq!(parse_u64(&c("18446744073709551615")), Some(u64::MAX));
    assert_eq!(parse_u64(&c("18446744073709551616")), None);
    assert_eq!(parse_u64(&c("99999999999999999999999")), None);
    assert_eq!(parse_u64(&c("")), None);
    assert_eq!(parse_u64(&c("1a")), None);
    assert_eq!(parse_u64(&c("+1")), None);
    assert_eq!(parse_u64(&c("١٢")), None);
    assert_eq!(parse_u32(&c("4294967295")), Some(u32::MAX));
    assert_eq!(parse_u32(&c("4294967296")), None);
    assert_eq!(parse_plus_u32(&c("+12")), Some(12));
    assert_eq!(parse_plus_u32(&c("12")), Some(12));
    assert_eq!(parse_plus_u32(&c("+")), None);
    assert_eq!(parse_plus_u32(&c("++1")), None);
    assert_eq!(parse_plus_u32(&c("-1")), None);
    assert_eq!(parse_i64(&c("-1")), Some(-1));
    assert_eq!(parse_i64(&c("+1")), Some(1));
    assert_eq!(parse_i64(&c("-0")), Some(0));
    assert_eq!(parse_i64(&c("9223372036854775807")), Some(i64::MAX));
    assert_eq!(parse_i64(&c("9223372036854775808")), None);
    assert_eq!(parse_i64(&c("-9223372036854775808")), Some(i64::MIN));
    assert_eq!(parse_i64(&c("-9223372036854775809")), None);
    assert_eq!(parse_i64(&c("-")), None);
    assert_eq!(parse_i64(&c("")), None);
    assert_eq!(parse_i64(&c("1-")), None);
}

#[test]
fn reading_decimals() {
    let p = |units, decimals| Some(Percentage { units, decimals });
    assert_eq!(parse_decimal(&c("45.2")), p(452, 1));
    assert_eq!(parse_decimal(&c("100")), p(100, 0));
    assert_eq!(parse_decimal(&c("0.00")), p(0, 2));
    assert_eq!(parse_decimal(&c("00.50")), p(50, 2));
    assert_eq!(parse_decimal(&c("1844674407370955161.5")), p(u64::MAX, 1));
    // digits of the fraction that do not fit are dropped
    assert_eq!(parse_decimal(&c("1844674407370955161.6")), p(1844674407370955161, 0));
    assert_eq!(parse_decimal(&c("1844674407370955161.56")), p(u64::MAX, 1));
    assert_eq!(parse_decimal(&c("45.20000000000000000000")), p(4520000000000000000, 17));
    assert_eq!(parse_decimal(&c("18446744073709551616")), None);
    assert_eq!(parse_decimal(&c("18446744073709551616.5")), None);
    assert_eq!(parse_decimal(&c("1.99999999999999999999x")), None);
    assert_eq!(parse_decimal(&c("")), None);
    assert_eq!(parse_decimal(&c(".5")), None);
    assert_eq!(parse_decimal(&c("5.")), None);
    assert_eq!(parse_decimal(&c(".")), None);
    assert_eq!(parse_decimal(&c("1.2.3")), None);
    assert_eq!(parse_decimal(&c("1e3")), None);
    assert_eq!(parse_decimal(&c("-1")), None);
}

#[test]
fn writing_numbers() {
    assert_eq!(decimal_string(0), "0");
    assert_eq!(decimal_string(9), "9");
    assert_eq!(decimal_string(10), "10");
    assert_eq!(decimal_string(1400), "1400");
    assert_eq!(decimal_string(u64::MAX), "18446744073709551615");
    assert_eq!(signed_decimal_string(0), "0");
    assert_eq!(signed_decimal_string(-1), "-1");
    assert_eq!(signed_decimal_string(i64::MAX), "9223372036854775807");
    assert_eq!(signed_decimal_string(i64::MIN), "-9223372036854775808");
}
