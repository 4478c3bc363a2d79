use mjai_reviewer::text::{decimal_string, parse_u8_text, same_text, split_text};

#[test]
fn decimal_string_writes_numerals() {
    assert_eq!(decimal_string(0), "0");
    assert_eq!(decimal_string(7), "7");
    assert_eq!(decimal_string(10), "10");
    assert_eq!(decimal_string(255), "255");
    assert_eq!(decimal_string(1_000_000), "1000000");
    assert_eq!(decimal_string(u64::MAX), "18446744073709551615");
}

#[test]
fn decimal_string_agrees_with_std() {
    for n in 0..2000u64 {
        assert_eq!(decimal_string(n), n.to_string());
    }
    for shift in 0..64u32 {
        let n = 1u64 << shift;
        assert_eq!(decimal_string(n), n.to_string());
        assert_eq!(decimal_string(n - 1), (n - 1).to_string());
    }
}

#[test]
fn parse_u8_text_reads_numerals() {
    assert_eq!(parse_u8_text("0"), Some(0));
    assert_eq!(parse_u8_text("3"), Some(3));
    assert_eq!(parse_u8_text("255"), Some(255));
    assert_eq!(parse_u8_text("007"), Some(7));
    assert_eq!(parse_u8_text("+5"), Some(5));
    assert_eq!(parse_u8_text("000000000000000000000000255"), Some(255));
}

#[test]
fn parse_u8_text_rejects_what_is_no_numeral() {
    assert_eq!(parse_u8_text(""), None);
    assert_eq!(parse_u8_text("+"), None);
    assert_eq!(parse_u8_text("-"), None);
    assert_eq!(parse_u8_text("-1"), None);
    assert_eq!(parse_u8_text("-0"), None);
    assert_eq!(parse_u8_text("++1"), None);
    assert_eq!(parse_u8_text("256"), None);
    assert_eq!(parse_u8_text("1000"), None);
    assert_eq!(parse_u8_text("99999999999999999999999999"), None);
    assert_eq!(parse_u8_text(" 1"), None);
    assert_eq!(parse_u8_text("1 "), None);
    assert_eq!(parse_u8_text("1_0"), None);
    assert_eq!(parse_u8_text("0x1"), None);
    assert_eq!(parse_u8_text("1.0"), None);
    assert_eq!(parse_u8_text("٣"), None);
    assert_eq!(parse_u8_text("３"), None);
    assert_eq!(parse_u8_text("2é"), None);
}

#[test]
fn parse_u8_text_agrees_with_std() {
    let pieces = ["", "+", "-", "0", "1", "2", "5", "9", "25", "00", " ", "a", "é", "."];
    for a in pieces {
        for b in pieces {
            for c in pieces {
                let s = format!("{a}{b}{c}");
                assert_eq!(parse_u8_text(&s), s.parse::<u8>().ok(), "on {s:?}");
            }
        }
    }
    for n in 0..1500u32 {
        let s = n.to_string();
        assert_eq!(parse_u8_text(&s), s.parse::<u8>().ok(), "on {s:?}");
    }
}

#[test]
fn split_text_cuts_at_every_separator() {
    assert_eq!(split_text("3.10", '.'), vec!["3", "10"]);
    assert_eq!(split_text("3", '.'), vec!["3"]);
    assert_eq!(split_text("", '.'), vec![""]);
    assert_eq!(split_text(".", '.'), vec!["", ""]);
    assert_eq!(split_text("a.", '.'), vec!["a", ""]);
    assert_eq!(split_text(".a", '.'), vec!["", "a"]);
    assert_eq!(split_text("1.2.3", '.'), vec!["1", "2", "3"]);
    assert_eq!(split_text("a..b", '.'), vec!["a", "", "b"]);
    assert_eq!(split_text("-0.50", '.'), vec!["-0", "50"]);
    assert_eq!(split_text("é.ü", '.'), vec!["é", "ü"]);
    assert_eq!(split_text("a,b.c", ','), vec!["a", "b.c"]);
}

#[test]
fn split_text_agrees_with_std() {
    let pieces = ["", ".", "a", "12", "é", ".."];
    for a in pieces {
        for b in pieces {
            for c in pieces {
                let s = format!("{a}{b}{c}");
                let expected: Vec<String> = s.split('.').map(|part| part.to_owned()).collect();
                assert_eq!(split_text(&s, '.'), expected, "on {s:?}");
            }
        }
    }
}

#[test]
fn split_text_fields_hold_no_separator() {
    for field in split_text("1.25.x..y", '.') {
        assert!(!field.contains('.'));
    }
    assert_eq!(split_text("no separator here", '.'), vec!["no separator here"]);
}

#[test]
fn same_text_compares_texts() {
    assert!(same_text("", ""));
    assert!(same_text("kyoku", "kyoku"));
    assert!(same_text("Self👇", "Self👇"));
    assert!(!same_text("kyoku", "kyokv"));
    assert!(!same_text("kyoku", "kyok"));
    assert!(!same_text("", "a"));
    assert!(!same_text("Self👇", "Self👆"));
}
