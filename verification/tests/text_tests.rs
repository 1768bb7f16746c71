use alar::lines::{
    remove_char, remove_text, split_lines, split_on, split_words, strip_char, strip_end_char,
    strip_start_text,
};
use alar::number::{number_chars, parse_number};
use alar::text::{
    from_chars, join2, join3, same_text, text_contains, to_ascii_lowercase, to_chars, trim_text,
};

fn chars(s: &str) -> Vec<char> {
    s.chars().collect()
}

fn text(v: &Vec<char>) -> String {
    v.iter().collect()
}

fn texts(v: &Vec<Vec<char>>) -> Vec<String> {
    v.iter().map(text).collect()
}

#[test]
fn chars_and_strings_round_trip() {
    assert_eq!(to_chars("a\u{e9}z"), vec!['a', '\u{e9}', 'z']);
    assert_eq!(from_chars(&vec!['o', 'k']), "ok");
    assert_eq!(from_chars(&to_chars("")), "");
    assert_eq!(join2("ab", "cd"), "abcd");
    assert_eq!(join3("a", "", "c"), "ac");
    assert!(same_text("x1", "x1"));
    assert!(!same_text("x1", "x2"));
}

#[test]
fn trim_removes_white_space_at_both_ends_only() {
    assert_eq!(trim_text("  a b \t\n"), "a b");
    assert_eq!(trim_text("\u{a0}x\u{3000}"), "x");
    assert_eq!(trim_text("   "), "");
    assert_eq!(trim_text(""), "");
    assert_eq!(trim_text("x"), "x");
}

#[test]
fn contains_finds_a_needle_anywhere() {
    assert!(text_contains("abcdef", "cde"));
    assert!(text_contains("abcdef", "abcdef"));
    assert!(text_contains("abcdef", "f"));
    assert!(text_contains("abc", ""));
    assert!(text_contains("", ""));
    assert!(!text_contains("abc", "abcd"));
    assert!(!text_contains("abcabd", "abe"));
    assert!(text_contains("aab", "ab"));
}

#[test]
fn split_keeps_empty_pieces() {
    assert_eq!(texts(&split_on(&chars("a;b;;c"), ';')), vec!["a", "b", "", "c"]);
    assert_eq!(texts(&split_on(&chars(""), ';')), vec![""]);
    assert_eq!(texts(&split_on(&chars(";"), ';')), vec!["", ""]);
    assert_eq!(texts(&split_on(&chars("abc"), ';')), vec!["abc"]);
}

#[test]
fn lines_end_at_line_feeds() {
    assert_eq!(texts(&split_lines(&chars("a\nb\n"))), vec!["a", "b"]);
    assert_eq!(texts(&split_lines(&chars("a\r\nb"))), vec!["a", "b"]);
    assert_eq!(texts(&split_lines(&chars("a\n\nb"))), vec!["a", "", "b"]);
    assert_eq!(texts(&split_lines(&chars("a\rb"))), vec!["a\rb"]);
    assert_eq!(texts(&split_lines(&chars("a\r"))), vec!["a\r"]);
    assert!(split_lines(&chars("")).is_empty());
    assert_eq!(texts(&split_lines(&chars("\n"))), vec![""]);
}

#[test]
fn lines_agree_with_the_standard_library() {
    for sample in ["", "x", "x\n", "\n\n", "a\r\n\r\nb\r", "one\ntwo\r\nthree", "\r\n", "a\n\r"] {
        let want: Vec<String> = sample.lines().map(|l| l.to_string()).collect();
        assert_eq!(texts(&split_lines(&chars(sample))), want);
    }
}

#[test]
fn words_skip_runs_of_spaces() {
    assert_eq!(texts(&split_words(&chars("  a   b c  "))), vec!["a", "b", "c"]);
    assert!(split_words(&chars("   ")).is_empty());
    assert!(split_words(&chars("")).is_empty());
    assert_eq!(texts(&split_words(&chars("a\tb c"))), vec!["a\tb", "c"]);
}

#[test]
fn characters_and_texts_are_removed() {
    assert_eq!(text(&remove_char(&chars("\"Ubu\"ntu\""), '"')), "Ubuntu");
    assert_eq!(text(&remove_text(&chars("/dev/sdc"), &chars("/dev/"))), "sdc");
    assert_eq!(text(&remove_text(&chars("/dev//dev/x"), &chars("/dev/"))), "x");
    assert_eq!(text(&remove_text(&chars("abc"), &chars(""))), "abc");
    assert_eq!(text(&remove_text(&chars("aaa"), &chars("aa"))), "a");
    assert_eq!(text(&strip_char(&chars("\"\"22.04\""), '"')), "22.04");
    assert_eq!(text(&strip_end_char(&chars("http://x//"), '/')), "http://x");
    assert_eq!(text(&strip_start_text(&chars("K=K=v"), &chars("K="))), "v");
    assert_eq!(text(&strip_start_text(&chars("v"), &chars("K="))), "v");
}

#[test]
fn ascii_letters_are_lowered() {
    assert_eq!(text(&to_ascii_lowercase(&chars("IKey-\u{c9}Z@["))), "ikey-\u{c9}z@[");
}

#[test]
fn numbers_are_read_like_the_standard_library_reads_them() {
    for sample in [
        "0", "7", "15", "+3", "-3", "-0", "2147483647", "2147483648", "-2147483648", "-2147483649",
        "", "+", "-", " 1", "1 ", "1a", "a", "99999999999999999999", "007", "+-1",
    ] {
        assert_eq!(parse_number(&chars(sample)), sample.parse::<i32>().ok());
    }
}

#[test]
fn numbers_are_written_like_the_standard_library_writes_them() {
    for n in [0, 1, 9, 10, 15, 128, -1, -10, 2147483647, -2147483648] {
        assert_eq!(text(&number_chars(n)), n.to_string());
    }
}
