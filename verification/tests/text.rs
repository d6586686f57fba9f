use oxprint_backend::text::{chars_of, concat2, parse_u32, same_text, strip_leading};

#[test]
fn parse_u32_reads_decimal_numbers() {
    assert_eq!(parse_u32("5"), Some(5));
    assert_eq!(parse_u32("0012"), Some(12));
    assert_eq!(parse_u32("+7"), Some(7));
    assert_eq!(parse_u32("4294967295"), Some(u32::MAX));
}

#[test]
fn parse_u32_rejects_what_is_not_a_number() {
    assert_eq!(parse_u32(""), None);
    assert_eq!(parse_u32("+"), None);
    assert_eq!(parse_u32("-"), None);
    assert_eq!(parse_u32("-1"), None);
    assert_eq!(parse_u32("++1"), None);
    assert_eq!(parse_u32(" 1"), None);
    assert_eq!(parse_u32("1 "), None);
    assert_eq!(parse_u32("1_000"), None);
    assert_eq!(parse_u32("12a"), None);
    assert_eq!(parse_u32("٣"), None);
    assert_eq!(parse_u32("4294967296"), None);
    assert_eq!(parse_u32("99999999999999999999"), None);
}

#[test]
fn parse_u32_agrees_with_std() {
    let samples = [
        "", "+", "-", "0", "+0", "-0", "1", "10", "42", "007", "+42", "4294967295", "4294967296",
        "42949672950", "abc", "1a", "a1", " 5", "5 ", "5５", "1.0", "0x10", "+-1",
    ];
    for s in samples {
        assert_eq!(parse_u32(s), s.parse::<u32>().ok(), "parsing {:?}", s);
    }
}

#[test]
fn strip_leading_removes_every_repetition() {
    assert_eq!(strip_leading("sqlite:data/oxprint.db", "sqlite:"), "data/oxprint.db");
    assert_eq!(strip_leading("sqlite:sqlite:x", "sqlite:"), "x");
    assert_eq!(strip_leading("data/sqlite:x", "sqlite:"), "data/sqlite:x");
    assert_eq!(strip_leading("sqlite", "sqlite:"), "sqlite");
    assert_eq!(strip_leading("sqlite:", "sqlite:"), "");
    assert_eq!(strip_leading("abc", ""), "abc");
    assert_eq!(strip_leading("ééx", "é"), "x");
}

#[test]
fn strip_leading_agrees_with_std() {
    let samples = ["", "sqlite:", "sqlite::memory:", "sqlite:sqlite:a", "x", "sqlit:e", "sqlite:/a/b"];
    for s in samples {
        assert_eq!(strip_leading(s, "sqlite:"), s.trim_start_matches("sqlite:"));
    }
}

#[test]
fn text_helpers_work_on_characters() {
    assert_eq!(chars_of("aé/"), vec!['a', 'é', '/']);
    assert!(same_text("index.html", "index.html"));
    assert!(!same_text("index.html", "Index.html"));
    assert_eq!(concat2("Database error: ", "locked"), "Database error: locked");
}
