//! Text, numbers, dates, order and form fields.

use lied::date::{minute_text, read_date, Date};
use lied::form::{field, multi, parse_ids};
use lied::id::Uuid;
use lied::listing::{check_if_match, etag_for, is_truncated, parse_filters};
use lied::number::{decimal, push_nat, read_i16, read_i32, read_i64};
use lied::order::text_less;
use lied::text::{
    blank_to_none, chars_of, html_escape, join_all, same, split_all, split_once, trim, white_space,
};

#[test]
fn white_space_is_what_unicode_says() {
    for code in 0..=0x10ffffu32 {
        if let Some(c) = char::from_u32(code) {
            assert_eq!(white_space(c), c.is_whitespace(), "U+{code:04X}");
        }
    }
}

#[test]
fn trimming_agrees_with_the_standard_library() {
    for s in ["", " ", "a", " a", "a ", "\t a b \n", "\u{a0}x\u{2003}", "é  é", "\u{3000}"] {
        assert_eq!(trim(s), s.trim());
        assert_eq!(trim(trim(s)), trim(s));
    }
}

#[test]
fn blank_entries_are_none() {
    assert_eq!(blank_to_none(&None), None);
    assert_eq!(blank_to_none(&Some("  ".to_string())), None);
    assert_eq!(
        blank_to_none(&Some(" x y ".to_string())).as_deref(),
        Some("x y")
    );
    let once = blank_to_none(&Some(" x ".to_string()));
    assert_eq!(blank_to_none(&once), once);
}

#[test]
fn splitting_and_joining_undo_each_other() {
    for s in ["", "a", "a&b", "&", "a&&b&", "ä&ö"] {
        let pieces = split_all(s, '&');
        let expected: Vec<String> = s.split('&').map(|p| p.to_string()).collect();
        assert_eq!(pieces, expected);
        assert_eq!(join_all(&pieces, '&'), s);
    }
}

#[test]
fn a_text_splits_at_the_first_separator() {
    assert_eq!(split_once("up:a:b", ':'), Some(("up", "a:b")));
    assert_eq!(split_once("none", ':'), None);
    assert_eq!(split_once(":", ':'), Some(("", "")));
}

#[test]
fn equal_texts_are_the_same() {
    assert!(same("", ""));
    assert!(same("añb", "añb"));
    assert!(!same("a", "b"));
    assert!(!same("a", "ab"));
    assert_eq!(chars_of("añ"), vec!['a', 'ñ']);
}

#[test]
fn markup_is_escaped() {
    assert_eq!(
        html_escape("<a href=\"x\">R&B</a>"),
        "&lt;a href=&quot;x&quot;&gt;R&amp;B&lt;/a&gt;"
    );
    assert_eq!(html_escape("plain text"), "plain text");
    assert_eq!(html_escape("&amp;"), "&amp;amp;");
}

#[test]
fn numbers_read_as_the_standard_library_reads_them() {
    let texts = [
        "", "0", "-0", "+0", "7", "-7", "+7", "007", "+", "-", "--1", "1 ", " 1", "1x", "x",
        "32767", "32768", "-32768", "-32769", "2147483647", "2147483648", "-2147483648",
        "-2147483649", "9223372036854775807", "9223372036854775808", "-9223372036854775808",
        "-9223372036854775809", "99999999999999999999999999", "٣", "1_000", "1.0",
    ];
    for t in texts {
        assert_eq!(read_i16(t), t.parse::<i16>().ok(), "{t:?}");
        assert_eq!(read_i32(t), t.parse::<i32>().ok(), "{t:?}");
        assert_eq!(read_i64(t), t.parse::<i64>().ok(), "{t:?}");
    }
}

#[test]
fn written_numbers_read_back() {
    for n in [0, 1, -1, 10, -10, 12345, i64::MAX, i64::MIN] {
        assert_eq!(decimal(n), n.to_string());
        assert_eq!(read_i64(&decimal(n)), Some(n));
    }
    let mut out = "n=".to_string();
    push_nat(&mut out, u128::MAX);
    assert_eq!(out, format!("n={}", u128::MAX));
}

#[test]
fn dates_read_and_are_written() {
    let leap = Date { year: 2024, month: 2, day: 29 };
    assert_eq!(read_date("2024-02-29"), Some(leap));
    assert_eq!(leap.text(), "2024-02-29");
    assert_eq!(read_date("2023-02-29"), None);
    assert_eq!(read_date("2024-13-01"), None);
    assert_eq!(read_date("2024-04-31"), None);
    assert_eq!(read_date("yesterday"), None);
    assert_eq!(read_date(""), None);
    assert_eq!(Date { year: 7, month: 1, day: 2 }.text(), "0007-01-02");
    assert_eq!(Date { year: -5, month: 1, day: 2 }.text(), "-0005-01-02");
    assert_eq!(Date { year: 12024, month: 1, day: 2 }.text(), "+12024-01-02");
}

#[test]
fn dates_agree_with_the_calendar_crate() {
    let mut day = chrono::NaiveDate::from_ymd_opt(1999, 12, 1).unwrap();
    for _ in 0..900 {
        let text = day.to_string();
        let read = read_date(&text).unwrap();
        assert_eq!(read.text(), text);
        day = day.succ_opt().unwrap();
    }
}

#[test]
fn times_are_shown_to_the_minute() {
    assert_eq!(minute_text(0).as_deref(), Some("1970-01-01 00:00"));
    assert_eq!(
        minute_text(1_709_210_096_000).as_deref(),
        Some("2024-02-29 12:34")
    );
    assert_eq!(minute_text(i64::MAX), None);
}

#[test]
fn texts_are_ordered_as_the_standard_library_orders_them() {
    let words = ["", "a", "A", "ab", "b", "é", "z", "Z", "\u{ffff}", "\u{10000}", "aé"];
    for a in words {
        for b in words {
            assert_eq!(text_less(a, b), a < b, "{a:?} {b:?}");
        }
    }
}

#[test]
fn a_version_is_named_by_its_tag_or_its_time() {
    assert_eq!(etag_for(1700), "\"1700\"");
    assert_eq!(etag_for(-3), "\"-3\"");
    assert!(check_if_match(Some("\"1700\""), 1700).is_ok());
    assert!(check_if_match(Some("1700"), 1700).is_ok());
    assert_eq!(check_if_match(Some("\"1699\""), 1700).err().unwrap().status(), 412);
    assert_eq!(check_if_match(Some("*"), 1700).err().unwrap().status(), 412);
    assert_eq!(check_if_match(None, 1700).err().unwrap().status(), 412);
}

#[test]
fn a_page_is_truncated_where_there_is_more() {
    assert!(is_truncated(200, 201));
    assert!(!is_truncated(200, 200));
    assert!(!is_truncated(0, -1));
}

fn pairs(items: &[(&str, &str)]) -> Vec<(String, String)> {
    items
        .iter()
        .map(|(k, v)| (k.to_string(), v.to_string()))
        .collect()
}

#[test]
fn a_form_field_is_its_first_value() {
    let p = pairs(&[("a", "1"), ("b", "2"), ("a", "3")]);
    assert_eq!(field(&p, "a"), Some("1"));
    assert_eq!(field(&p, "c"), None);
    assert_eq!(multi(&p, "a"), vec!["1".to_string(), "3".to_string()]);
    assert!(multi(&p, "c").is_empty());
}

#[test]
fn filters_are_told_from_other_parameters() {
    let p = pairs(&[
        ("limit", "5"),
        ("filter[title]", "bol"),
        ("filter[]", "x"),
        ("filter[open", "y"),
        ("sort", "title"),
        ("filter[tag]", "a,b"),
    ]);
    assert_eq!(
        parse_filters(&p),
        pairs(&[("title", "bol"), ("", "x"), ("tag", "a,b")])
    );
}

#[test]
fn identifiers_are_read_all_or_none() {
    let a = Uuid::now_v7();
    let b = Uuid::now_v7();
    assert_eq!(parse_ids(&vec![a.text(), b.text()]), Some(vec![a, b]));
    assert_eq!(parse_ids(&vec![]), Some(vec![]));
    assert_eq!(parse_ids(&vec![a.text(), "x".to_string()]), None);
}
