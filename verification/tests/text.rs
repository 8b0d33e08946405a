use lc1c_core::text::{
    char_of_digit, chars_of, contains, digit_of, joined, matches_at, parse_i32, push_decimal,
    starts_with,
};

fn chars(s: &str) -> Vec<char> {
    s.chars().collect()
}

#[test]
fn chars_of_gives_the_characters() {
    for s in ["", "a", "héllo wörld", "chain-12", "日本語"] {
        assert_eq!(chars_of(s), chars(s));
    }
}

#[test]
fn joined_texts_keep_their_order() {
    assert_eq!(joined("ab", "cd"), "abcd");
    assert_eq!(joined("", "cd"), "cd");
    assert_eq!(joined("ab", ""), "ab");
}

#[test]
fn parse_agrees_with_the_standard_reading() {
    let samples = [
        "", "0", "7", "-7", "+7", "+", "-", "--1", "+-1", "007", "-0", "12a", "a12", " 12", "12 ",
        "2147483647", "2147483648", "-2147483648", "-2147483649", "4294967296",
        "99999999999999999999", "-99999999999999999999", "1_000", "1.5", "٣", "１２",
    ];
    for s in samples {
        assert_eq!(parse_i32(&chars(s)), s.parse::<i32>().ok(), "{:?}", s);
    }
}

#[test]
fn parse_reads_exact_values() {
    assert_eq!(parse_i32(&chars("12")), Some(12));
    assert_eq!(parse_i32(&chars("-2147483648")), Some(i32::MIN));
    assert_eq!(parse_i32(&chars("2147483647")), Some(i32::MAX));
    assert_eq!(parse_i32(&chars("2147483648")), None);
    assert_eq!(parse_i32(&chars("")), None);
}

#[test]
fn contains_agrees_with_the_standard_search() {
    let texts = ["", "a", "abc", "bash: foo: command not found", "aaab", "ababab", "xyz"];
    let needles = ["", "a", "b", "ab", "abc", "bc", "aab", "command not found", "baba", "zz"];
    for t in texts {
        for n in needles {
            assert_eq!(contains(&chars(t), &chars(n)), t.contains(n), "{:?} in {:?}", n, t);
            assert_eq!(starts_with(&chars(t), &chars(n)), t.starts_with(n), "{:?} {:?}", n, t);
        }
    }
}

#[test]
fn matches_at_checks_one_position() {
    let text = chars("abcabc");
    let needle = chars("bc");
    assert!(!matches_at(&text, &needle, 0));
    assert!(matches_at(&text, &needle, 1));
    assert!(matches_at(&text, &needle, 4));
    assert!(!matches_at(&text, &needle, 5));
    assert!(!matches_at(&text, &needle, 600));
    assert!(matches_at(&text, &chars(""), 6));
    assert!(!matches_at(&text, &chars(""), 7));
}

#[test]
fn digits_convert_both_ways() {
    for d in 0..10u8 {
        let c = char_of_digit(d);
        assert_eq!(c, (b'0' + d) as char);
        assert_eq!(digit_of(c), Some(d));
    }
    assert_eq!(digit_of('a'), None);
    assert_eq!(digit_of('/'), None);
    assert_eq!(digit_of(':'), None);
}

#[test]
fn decimal_is_appended() {
    for n in [0u64, 5, 10, 99, 100, 1234567890, u64::MAX] {
        let mut text = String::from("n=");
        push_decimal(&mut text, n);
        assert_eq!(text, format!("n={}", n));
    }
}
