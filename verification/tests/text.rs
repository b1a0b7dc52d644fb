//! The text primitives against those of the standard library.

use herdr::pairs::{clone_pairs, lookup, same_pairs};
use herdr::text::{
    after_last_char, before_first_char, cat2, cat3, cat4, cat5, chars_of, contains,
    drop_last_char, find_char, is_control_char, is_whitespace_char, opt_clone, opt_eq, opt_is,
    starts_with, str_eq, str_precedes, str_split_once, strip_prefix, to_decimal, to_lower,
    to_signed_decimal, trim,
};

const SAMPLES: [&str; 12] = [
    "",
    " ",
    "a",
    "  a b\t\n",
    "\u{a0}x\u{3000}",
    "me@box:22",
    "a:b:c",
    "ssh://me@box#work",
    "\u{e9}t\u{e9}",
    "\u{1f600} smile",
    "ABC def",
    ":",
];

#[test]
fn characters_are_classed_as_the_standard_library_does() {
    for c in '\u{0}'..=char::MAX {
        assert_eq!(is_whitespace_char(c), c.is_whitespace(), "{c:?}");
        assert_eq!(is_control_char(c), c.is_control(), "{c:?}");
    }
}

#[test]
fn texts_are_taken_apart_as_the_standard_library_does() {
    for s in SAMPLES {
        assert_eq!(trim(s), s.trim());
        assert_eq!(trim(trim(s)), s.trim());
        assert_eq!(chars_of(s), s.chars().collect::<Vec<char>>());
        assert_eq!(str_split_once(s, ':'), s.split_once(':'));
        assert_eq!(after_last_char(s, '@'), s.rsplit_once('@').map_or(s, |(_, host)| host));
        assert_eq!(before_first_char(s, ':'), s.split(':').next().unwrap_or(s));
        assert_eq!(
            find_char(s, ':'),
            s.chars().position(|c| c == ':').unwrap_or(s.chars().count())
        );
        let mut popped = s.to_string();
        popped.pop();
        assert_eq!(drop_last_char(s), popped);
        assert_eq!(to_lower(s), s.to_ascii_lowercase());
        for t in SAMPLES {
            assert_eq!(str_eq(s, t), s == t);
            assert_eq!(starts_with(s, t), s.starts_with(t));
            assert_eq!(strip_prefix(s, t), s.strip_prefix(t));
            assert_eq!(contains(s, t), s.contains(t));
            assert_eq!(str_precedes(s, t), s < t, "{s:?} {t:?}");
            assert_eq!(cat2(s, t), format!("{s}{t}"));
            assert_eq!(cat3(s, "-", t), format!("{s}-{t}"));
            assert_eq!(cat4(s, "-", t, "-"), format!("{s}-{t}-"));
            assert_eq!(cat5("-", s, "-", t, "-"), format!("-{s}-{t}-"));
        }
    }
}

#[test]
fn numbers_are_written_as_the_standard_library_does() {
    for n in [0u64, 1, 9, 10, 99, 100, u64::MAX] {
        assert_eq!(to_decimal(n), n.to_string());
    }
    for n in [0i32, 1, -1, 10, -10, i32::MAX, i32::MIN] {
        assert_eq!(to_signed_decimal(n), n.to_string());
    }
}

#[test]
fn optional_texts_are_told_apart() {
    let some = Some("a".to_string());
    assert!(opt_is(&some, "a"));
    assert!(!opt_is(&some, "b"));
    assert!(!opt_is(&None, "a"));
    assert!(opt_eq(&some, &opt_clone(&some)));
    assert!(opt_eq(&None, &None));
    assert!(!opt_eq(&some, &None));
}

#[test]
fn pairs_are_looked_up_by_their_first() {
    let pairs = vec![
        ("a".to_string(), "1".to_string()),
        ("b".to_string(), "2".to_string()),
        ("a".to_string(), "3".to_string()),
    ];
    assert_eq!(lookup(&pairs, "b").map(String::as_str), Some("2"));
    assert_eq!(lookup(&pairs, "c"), None);
    assert!(same_pairs(&pairs, &clone_pairs(&pairs)));
    assert!(!same_pairs(&pairs, &Vec::new()));
}
