use g2g_client::pacing::{draw_pause, pause_range};
use g2g_client::flow::PauseKind;
use g2g_client::text::{
    chars_of, contains, decimal, find, first_word, lines, replace, same, string_of, trim,
};

fn chars(s: &str) -> Vec<char> {
    s.chars().collect()
}

fn text(v: Vec<char>) -> String {
    v.into_iter().collect()
}

#[test]
fn strings_and_characters_convert_both_ways() {
    assert_eq!(chars_of("añ€😀"), vec!['a', 'ñ', '€', '😀']);
    assert_eq!(string_of(&vec!['a', 'ñ', '€', '😀']), "añ€😀");
    assert_eq!(string_of(&Vec::new()), "");
    assert!(same("abc", "abc"));
    assert!(!same("abc", "abd"));
    assert!(!same("abc", "ab"));
    assert!(same("", ""));
}

#[test]
fn find_gives_the_first_position() {
    assert_eq!(find(&chars("abcabc"), &chars("bc")), Some(1));
    assert_eq!(find(&chars("abcabc"), &chars("")), Some(0));
    assert_eq!(find(&chars("abc"), &chars("abcd")), None);
    assert_eq!(find(&chars("abc"), &chars("c")), Some(2));
    assert_eq!(find(&chars(""), &chars("")), Some(0));
    assert_eq!(find(&chars("ñandú"), &chars("dú")), Some(3));
    assert!(contains(&chars("hello"), &chars("ell")));
    assert!(!contains(&chars("hello"), &chars("elo")));
}

#[test]
fn trim_removes_white_space_at_both_ends_only() {
    assert_eq!(text(trim(&chars("  a b \t\r\n"))), "a b");
    assert_eq!(text(trim(&chars("\u{a0}x\u{3000}"))), "x");
    assert_eq!(text(trim(&chars("   "))), "");
    assert_eq!(text(trim(&chars(""))), "");
    assert_eq!(text(trim(&chars("x"))), "x");
}

#[test]
fn first_word_stops_at_white_space() {
    assert_eq!(text(first_word(&chars("  one two"))), "one");
    assert_eq!(text(first_word(&chars("one"))), "one");
    assert_eq!(text(first_word(&chars("   "))), "");
    assert_eq!(text(first_word(&chars(""))), "");
}

#[test]
fn replace_works_from_left_to_right_without_overlap() {
    let replaced = |s: &str, from: &str, to: &str| text(replace(&chars(s), &chars(from), &chars(to)));
    assert_eq!(replaced("aaa", "aa", "b"), "ba");
    assert_eq!(replaced("a\"b\"", "\"", "\"\""), "a\"\"b\"\"");
    assert_eq!(replaced("x\r\ny\rz", "\r\n", "\n"), "x\ny\rz");
    assert_eq!(replaced("abc", "", "x"), "abc");
    assert_eq!(replaced("abc", "abcd", "x"), "abc");
    assert_eq!(replaced("Login: Login:x", "Login:", ""), " x");
    assert_eq!(replaced("", "a", "b"), "");
}

#[test]
fn lines_end_at_line_feeds() {
    let split = |s: &str| lines(&chars(s)).into_iter().map(text).collect::<Vec<String>>();
    assert_eq!(split("a\nb"), vec!["a", "b"]);
    assert_eq!(split("a\r\nb\n"), vec!["a", "b"]);
    assert_eq!(split("a\n\nb"), vec!["a", "", "b"]);
    assert_eq!(split("a\r"), vec!["a\r"]);
    assert_eq!(split("\n"), vec![""]);
    assert_eq!(split(""), Vec::<String>::new());
    for sample in ["a\nb", "a\r\nb\n", "a\n\nb", "a\r", "\n", "", "\r\n\r\n", "x\ry\n"] {
        let expected: Vec<String> = sample.lines().map(|l| l.to_string()).collect();
        assert_eq!(split(sample), expected, "{:?}", sample);
    }
}

#[test]
fn decimal_numerals_have_no_leading_zeros() {
    assert_eq!(decimal(0), "0");
    assert_eq!(decimal(7), "7");
    assert_eq!(decimal(10), "10");
    assert_eq!(decimal(1234567890), "1234567890");
    assert_eq!(decimal(u128::MAX), "340282366920938463463374607431768211455");
}

#[test]
fn pauses_stay_within_their_ranges() {
    let kinds = [
        (PauseKind::PreRefresh, 1500, 2500),
        (PauseKind::PreSearch, 1000, 2000),
        (PauseKind::InterOfferStep, 1500, 2500),
        (PauseKind::InterUploadStep, 500, 1000),
        (PauseKind::InterSkin, 2000, 3500),
    ];
    for (kind, low, high) in kinds {
        assert_eq!(pause_range(kind), (low, high));
        let mut seen = std::collections::BTreeSet::new();
        for _ in 0..200 {
            let millis = draw_pause(kind);
            assert!(low <= millis && millis < high);
            seen.insert(millis);
        }
        assert!(seen.len() > 1, "pauses of {:?} never vary", kind);
    }
}
