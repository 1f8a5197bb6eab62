use isd_parser::util::get_parts;
use isd_parser::util::is_null;
use isd_parser::util::join;
use isd_parser::util::naive_date_time_from_str;
use isd_parser::util::parse_null;
use isd_parser::util::parse_str;
use isd_parser::util::remove_whitespace;
use isd_parser::util::same_text;
use isd_parser::util::str_from_native_date_time;
use isd_parser::util::tokenize;
use isd_parser::util::trim;

#[test]
fn test_is_null() {
    //check empty string
    assert_eq!(is_null(""), true);
    //check string with all 9's
    assert_eq!(is_null("999"), true);
    // check a string with a single 9
    assert_eq!(is_null("9"), true);
    // check a string with a non numeric character
    assert_eq!(is_null("+999999"), true);
    assert_eq!(is_null("999,9,9,9999,9"), true);
    assert_eq!(is_null("+9999,9"), true);
    // check a string with a single non-9
    assert_eq!(is_null("929"), false);
}

#[test]
fn is_null_ignores_what_is_no_digit() {
    assert!(is_null("N"));
    assert!(is_null("+-., "));
    assert!(is_null("inf"));
    assert!(!is_null("N0"));
    assert!(!is_null("-0001"));
    assert!(!is_null("9999999990"));
}

#[test]
fn is_null_counts_digits_beyond_ascii() {
    // ARABIC-INDIC DIGIT THREE and VULGAR FRACTION ONE HALF are numbers and not '9'.
    assert!(!is_null("\u{663}"));
    assert!(!is_null("99\u{bd}"));
    // A letter beyond ASCII is no digit.
    assert!(is_null("9\u{e9}9"));
}

#[test]
fn tokenize_splits_on_every_comma() {
    assert_eq!(tokenize("220,1,N,0072,1"), vec!["220", "1", "N", "0072", "1"]);
    assert_eq!(tokenize("a,,b"), vec!["a", "", "b"]);
    assert_eq!(tokenize("a,"), vec!["a", ""]);
    assert_eq!(tokenize(",a"), vec!["", "a"]);
    assert_eq!(tokenize(","), vec!["", ""]);
}

#[test]
fn tokenize_gives_one_token_without_a_comma() {
    assert_eq!(tokenize(""), vec![""]);
    assert_eq!(tokenize("+0123"), vec!["+0123"]);
    assert_eq!(tokenize(" 1 2 "), vec![" 1 2 "]);
}

#[test]
fn tokenize_keeps_characters_beyond_ascii() {
    assert_eq!(tokenize("\u{b0}C,\u{e9}t\u{e9},9"), vec!["\u{b0}C", "\u{e9}t\u{e9}", "9"]);
}

#[test]
fn get_parts_never_fails() {
    assert_eq!(get_parts(""), Ok(vec!["".to_string()]));
    assert_eq!(
        get_parts("99999,9,9,N"),
        Ok(vec!["99999".to_string(), "9".to_string(), "9".to_string(), "N".to_string()])
    );
}

#[test]
fn trim_removes_the_white_space_around() {
    assert_eq!(trim("  N "), "N");
    assert_eq!(trim("\t\r\n 12 34 \n"), "12 34");
    assert_eq!(trim("N"), "N");
    assert_eq!(trim(""), "");
    assert_eq!(trim("   "), "");
    assert_eq!(trim("\u{b}\u{c}x"), "x");
}

#[test]
fn trim_knows_white_space_beyond_ascii() {
    // NO-BREAK SPACE, EM SPACE and IDEOGRAPHIC SPACE are white space.
    assert_eq!(trim("\u{a0}x\u{2003}"), "x");
    assert_eq!(trim("\u{3000}"), "");
    // ZERO WIDTH SPACE is none.
    assert_eq!(trim("\u{200b}x"), "\u{200b}x");
    // Neither are the file and group separators before the space.
    assert_eq!(trim("\u{1c}x\u{1f}"), "\u{1c}x\u{1f}");
}

#[test]
fn parse_null_trims_what_is_present() {
    assert_eq!(parse_null(" 0831 "), Some("0831".to_string()));
    assert_eq!(parse_null("010203"), Some("010203".to_string()));
}

#[test]
fn parse_null_gives_nothing_for_the_sentinel() {
    assert_eq!(parse_null("9999"), None);
    assert_eq!(parse_null(""), None);
    assert_eq!(parse_null(" 99 "), None);
    assert_eq!(parse_null("N"), None);
}

#[test]
fn parse_str_keeps_the_text_as_it_stands() {
    assert_eq!(parse_str(" 0831 "), Some(" 0831 ".to_string()));
    assert_eq!(parse_str("A1"), Some("A1".to_string()));
    assert_eq!(parse_str("999"), None);
    assert_eq!(parse_str("AB"), None);
}

#[test]
fn remove_whitespace_removes_it_everywhere() {
    assert_eq!(remove_whitespace(" K A B C "), "KABC");
    assert_eq!(remove_whitespace("99999"), "99999");
    assert_eq!(remove_whitespace(""), "");
    assert_eq!(remove_whitespace(" \t\n"), "");
    assert_eq!(remove_whitespace("a\u{a0}b\u{2028}c"), "abc");
}

#[test]
fn same_text_compares_character_by_character() {
    assert!(same_text("", ""));
    assert!(same_text("FM-15", "FM-15"));
    assert!(!same_text("FM-15", "FM-16"));
    assert!(!same_text("9", "99"));
    assert!(!same_text("99", "9"));
    assert!(same_text("\u{b0}C", "\u{b0}C"));
    assert!(!same_text("\u{b0}C", "\u{b0}F"));
}

#[test]
fn a_timestamp_reads_and_writes_the_same() {
    let t = naive_date_time_from_str("2020-01-31T23:59:00").unwrap();
    assert_eq!(str_from_native_date_time(&t), "2020-01-31T23:59:00");
    let u = naive_date_time_from_str("1999-12-01T00:07:09").unwrap();
    assert_eq!(str_from_native_date_time(&u), "1999-12-01T00:07:09");
    assert_ne!(t, u);
}

#[test]
fn a_timestamp_is_the_moment_it_names() {
    let t = naive_date_time_from_str("2020-02-29T12:30:45").unwrap();
    let expected = chrono::NaiveDate::from_ymd_opt(2020, 2, 29)
        .unwrap()
        .and_hms_opt(12, 30, 45)
        .unwrap();
    assert_eq!(t, expected);
}

#[test]
fn what_is_no_timestamp_is_refused() {
    assert_eq!(naive_date_time_from_str(""), None);
    assert_eq!(naive_date_time_from_str("2020-01-31"), None);
    assert_eq!(naive_date_time_from_str("2020-01-31 23:59:00"), None);
    assert_eq!(naive_date_time_from_str("2020-13-01T00:00:00"), None);
    assert_eq!(naive_date_time_from_str("2021-02-29T00:00:00"), None);
    assert_eq!(naive_date_time_from_str("2020-01-31T24:00:00"), None);
    assert_eq!(naive_date_time_from_str("2020-01-31T23:59:00Z"), None);
}

#[test]
fn joined_tokens_are_the_text_again() {
    for text in ["", ",", "a", "a,", ",a", "220,1,N,0072,1", "a,,b", ",,,", " 1 , 2 ", "\u{b0}C,\u{e9}"] {
        assert_eq!(join(&tokenize(text)), text);
    }
    assert_eq!(join(&Vec::new()), "");
    assert_eq!(join(&vec!["a".to_string(), "".to_string(), "b".to_string()]), "a,,b");
}
