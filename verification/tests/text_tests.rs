use aws_apis::text::begins_with;
use aws_apis::text::chars_of;
use aws_apis::text::concat_texts;
use aws_apis::text::contains;
use aws_apis::text::decimal_i64;
use aws_apis::text::decimal_u64;
use aws_apis::text::first_chars;
use aws_apis::text::followed_each;
use aws_apis::text::join;
use aws_apis::text::joined;
use aws_apis::text::present;
use aws_apis::text::replace_all;
use aws_apis::text::same_text;
use aws_apis::text::split_runs;
use aws_apis::text::is_white_space;
use aws_apis::text::truth;
use aws_apis::text::without_first;

fn strings(items: &[&str]) -> Vec<String> {
    items.iter().map(|s| s.to_string()).collect()
}

#[test]
fn decimal_of_unsigned_numbers() {
    assert_eq!(decimal_u64(0), "0");
    assert_eq!(decimal_u64(7), "7");
    assert_eq!(decimal_u64(10), "10");
    assert_eq!(decimal_u64(6379), "6379");
    assert_eq!(decimal_u64(u64::MAX), "18446744073709551615");
}

#[test]
fn decimal_of_signed_numbers() {
    assert_eq!(decimal_i64(0), "0");
    assert_eq!(decimal_i64(-1), "-1");
    assert_eq!(decimal_i64(-42), "-42");
    assert_eq!(decimal_i64(2023), "2023");
    assert_eq!(decimal_i64(i64::MIN), "-9223372036854775808");
    assert_eq!(decimal_i64(i64::MAX), "9223372036854775807");
}

#[test]
fn decimal_agrees_with_display() {
    for n in [-1000i64, -999, -10, -9, 9, 10, 99, 100, 101, 123456789] {
        assert_eq!(decimal_i64(n), format!("{}", n));
    }
}

#[test]
fn truth_is_written_as_display_writes_it() {
    assert_eq!(truth(true), "true");
    assert_eq!(truth(false), "false");
}

#[test]
fn joined_writes_tail_after_head() {
    assert_eq!(joined("ab", "cd"), "abcd");
    assert_eq!(joined("", "x"), "x");
}

#[test]
fn chars_of_keeps_order() {
    assert_eq!(chars_of("aé/"), vec!['a', 'é', '/']);
    assert_eq!(chars_of(""), Vec::<char>::new());
}

#[test]
fn same_text_compares_characters() {
    assert!(same_text("iam", "iam"));
    assert!(!same_text("iam", "Iam"));
    assert!(same_text("", ""));
}

#[test]
fn contains_finds_substrings() {
    assert!(contains("alpha beta ", "beta"));
    assert!(contains("alpha beta ", "a b"));
    assert!(contains("alpha", ""));
    assert!(contains("", ""));
    assert!(contains("abc", "abc"));
    assert!(contains("xabc", "abc"));
    assert!(!contains("alpha beta ", "gamma"));
    assert!(!contains("ab", "abc"));
    assert!(!contains("", "a"));
    assert!(contains("aab", "ab"));
}

#[test]
fn contains_agrees_with_std() {
    let hays = ["", "a", "ab", "aba", "abab", "hello world", "ééa"];
    let needles = ["", "a", "b", "ab", "ba", "aba", "o w", "éa", "z"];
    for h in hays {
        for n in needles {
            assert_eq!(contains(h, n), h.contains(n), "{:?} in {:?}", n, h);
        }
    }
}

#[test]
fn concat_join_and_followed_each() {
    let parts = strings(&["a", "bc", "", "d"]);
    assert_eq!(concat_texts(&parts), "abcd");
    assert_eq!(join(&parts, "\n"), "a\nbc\n\nd");
    assert_eq!(followed_each(&parts, " "), "a bc  d ");
    let none: Vec<String> = Vec::new();
    assert_eq!(concat_texts(&none), "");
    assert_eq!(join(&none, ","), "");
    assert_eq!(followed_each(&none, " "), "");
    assert_eq!(join(&strings(&["only"]), ","), "only");
}

#[test]
fn begins_with_and_without_first() {
    assert!(begins_with("/a", '/'));
    assert!(!begins_with("a/", '/'));
    assert!(!begins_with("", '/'));
    assert_eq!(without_first("/abc"), "abc");
    assert_eq!(without_first("é"), "");
    assert_eq!(without_first(""), "");
}

#[test]
fn first_chars_takes_at_most_n() {
    assert_eq!(first_chars("someone@example.com", 9), "someone@e");
    assert_eq!(first_chars("ab", 9), "ab");
    assert_eq!(first_chars("ééééé", 2), "éé");
    assert_eq!(first_chars("abc", 0), "");
}

#[test]
fn present_keeps_what_is_there() {
    let items = vec![Some("a".to_string()), None, Some("b".to_string()), None];
    assert_eq!(present(&items), strings(&["a", "b"]));
    assert_eq!(present(&Vec::new()), Vec::<String>::new());
}

#[test]
fn replace_all_replaces_from_left_without_overlap() {
    assert_eq!(replace_all("an email, the email", "email", "x@y"), "an x@y, the x@y");
    assert_eq!(replace_all("aaa", "aa", "b"), "ba");
    assert_eq!(replace_all("abc", "d", "e"), "abc");
    assert_eq!(replace_all("", "a", "b"), "");
    assert_eq!(replace_all("name", "name", ""), "");
    assert_eq!(replace_all("xnamey", "name", "name name"), "xname namey");
    assert_eq!(replace_all("abc", "", "-"), "-a-b-c-");
    assert_eq!(replace_all("", "", "-"), "-");
    assert_eq!(replace_all("é", "", ""), "é");
}

#[test]
fn replace_all_agrees_with_std() {
    let texts = ["", "a", "aa", "aaa", "abab", "banana", "{\"name\":\"name\"}"];
    let froms = ["", "a", "aa", "ab", "an", "name", "na"];
    let tos = ["", "x", "aa", "name"];
    for t in texts {
        for f in froms {
            for to in tos {
                assert_eq!(replace_all(t, f, to), t.replace(f, to));
            }
        }
    }
}

#[test]
fn split_runs_on_white_space_agrees_with_std() {
    for t in ["", " ", "a", " a ", "a b", "a  b\tc\nd", "\u{2003}x\u{00a0}y", " pass1   pass2 "] {
        let expected: Vec<String> = t.split_whitespace().map(|s| s.to_string()).collect();
        assert_eq!(split_runs(t, false), expected, "{:?}", t);
    }
}

#[test]
fn split_runs_on_blanks_only() {
    assert_eq!(split_runs("a@x.com b@y.org ", true), strings(&["a@x.com", "b@y.org"]));
    assert_eq!(split_runs("a\tb c", true), strings(&["a\tb", "c"]));
    assert_eq!(split_runs("   ", true), Vec::<String>::new());
    for t in ["", " ", "a", "a  b", " a b "] {
        let expected: Vec<String> =
            t.split(' ').filter(|s| !s.is_empty()).map(|s| s.to_string()).collect();
        assert_eq!(split_runs(t, true), expected);
    }
}

#[test]
fn white_space_agrees_with_std_on_every_character() {
    for code in 0u32..=0x10FFFF {
        if let Some(c) = char::from_u32(code) {
            assert_eq!(is_white_space(c), c.is_whitespace(), "U+{:04X}", code);
        }
    }
}

#[test]
fn white_space_of_given_characters() {
    for c in [' ', '\t', '\n', '\r', '\u{0B}', '\u{0C}', '\u{85}', '\u{A0}', '\u{3000}'] {
        assert!(is_white_space(c));
    }
    for c in ['a', '0', '\u{08}', '\u{0E}', '\u{200B}', '\u{180E}', '\u{FEFF}'] {
        assert!(!is_white_space(c));
    }
}
