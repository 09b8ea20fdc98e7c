use ssh_tool::text::{chars_of, contains_text, int_to_string, nat_to_string, parse_int};

#[test]
fn numerals_of_naturals() {
    assert_eq!(nat_to_string(0), "0");
    assert_eq!(nat_to_string(7), "7");
    assert_eq!(nat_to_string(10), "10");
    assert_eq!(nat_to_string(2222), "2222");
    assert_eq!(nat_to_string(u64::MAX), "18446744073709551615");
}

#[test]
fn numerals_of_integers() {
    assert_eq!(int_to_string(22), "22");
    assert_eq!(int_to_string(0), "0");
    assert_eq!(int_to_string(-1), "-1");
    assert_eq!(int_to_string(-450), "-450");
    assert_eq!(int_to_string(i64::MAX), "9223372036854775807");
    assert_eq!(int_to_string(i64::MIN), "-9223372036854775808");
}

#[test]
fn numerals_agree_with_the_standard_ones() {
    let samples: Vec<i64> = vec![
        0, 1, -1, 9, 10, 11, 99, 100, 101, 65535, -65536, 1234567890, -987654321,
        i64::MAX, i64::MIN, i64::MAX - 1, i64::MIN + 1,
    ];
    for n in samples {
        assert_eq!(int_to_string(n), format!("{}", n));
        assert_eq!(parse_int(&format!("{}", n)), Some(n));
    }
}

#[test]
fn reads_plain_numerals() {
    assert_eq!(parse_int("22"), Some(22));
    assert_eq!(parse_int("0"), Some(0));
    assert_eq!(parse_int("2222"), Some(2222));
    assert_eq!(parse_int("007"), Some(7));
    assert_eq!(parse_int("+15"), Some(15));
    assert_eq!(parse_int("-15"), Some(-15));
    assert_eq!(parse_int("-0"), Some(0));
}

#[test]
fn reads_the_extremes() {
    assert_eq!(parse_int("9223372036854775807"), Some(i64::MAX));
    assert_eq!(parse_int("-9223372036854775808"), Some(i64::MIN));
    assert_eq!(parse_int("9223372036854775808"), None);
    assert_eq!(parse_int("-9223372036854775809"), None);
    assert_eq!(parse_int("99999999999999999999999"), None);
    assert_eq!(parse_int("0000000000000000000000000000000000000012"), Some(12));
}

#[test]
fn refuses_what_is_no_numeral() {
    assert_eq!(parse_int(""), None);
    assert_eq!(parse_int("+"), None);
    assert_eq!(parse_int("-"), None);
    assert_eq!(parse_int("ssh"), None);
    assert_eq!(parse_int("22a"), None);
    assert_eq!(parse_int(" 22"), None);
    assert_eq!(parse_int("22 "), None);
    assert_eq!(parse_int("2 2"), None);
    assert_eq!(parse_int("--2"), None);
    assert_eq!(parse_int("+-2"), None);
    assert_eq!(parse_int("2.0"), None);
    assert_eq!(parse_int("1_000"), None);
    assert_eq!(parse_int("٢٢"), None);
}

#[test]
fn reading_agrees_with_the_standard_reader() {
    let samples = vec![
        "", "0", "1", "+1", "-1", "+", "-", "12x", "x12", "0x10", "١", "4294967296",
        "9223372036854775807", "9223372036854775808", "-9223372036854775808",
        "-9223372036854775809", "18446744073709551616", "000", "+000", "-000", " 1", "1\n",
    ];
    for text in samples {
        assert_eq!(parse_int(text), text.parse::<i64>().ok());
    }
}

#[test]
fn characters_one_by_one() {
    assert_eq!(chars_of(""), Vec::<char>::new());
    assert_eq!(chars_of("a-b"), vec!['a', '-', 'b']);
    assert_eq!(chars_of("服务器"), vec!['服', '务', '器']);
}

#[test]
fn finds_a_text_inside_another() {
    assert!(contains_text("/home/me/tool/target/debug", "/target/debug"));
    assert!(contains_text("/target/debug/deps", "/target/debug"));
    assert!(contains_text("/target/debug", "/target/debug"));
    assert!(!contains_text("/usr/local/bin", "/target/debug"));
    assert!(!contains_text("/target/debu", "/target/debug"));
    assert!(!contains_text("", "/target/debug"));
    assert!(contains_text("abc", ""));
    assert!(contains_text("", ""));
    assert!(contains_text("aab", "ab"));
    assert!(!contains_text("aba", "bb"));
}

#[test]
fn finding_agrees_with_the_standard_search() {
    let texts = vec!["", "a", "ab", "aab", "abab", "服务器", "/x/target/debug/y"];
    for hay in &texts {
        for needle in &texts {
            assert_eq!(contains_text(hay, needle), hay.contains(needle));
        }
    }
}
