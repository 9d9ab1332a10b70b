//! Tests of the string building blocks the parsers rest on.

use pixxiden::text::{ascii_lowercase, chars_eq, chars_to_string, contains_chars, digit_runs_exec,
    find_sub, parse_u32_chars, split_lines, str_eq, strip_all_chars, to_chars, trim_chars};

fn chars(s: &str) -> Vec<char> {
    to_chars(s)
}

fn strings(v: Vec<Vec<char>>) -> Vec<String> {
    v.iter().map(chars_to_string).collect()
}

#[test]
fn lowercase_folds_only_ascii() {
    assert_eq!(ascii_lowercase("Hollow KNIGHT 123"), "hollow knight 123");
    assert_eq!(ascii_lowercase(""), "");
}

#[test]
fn equality_and_containment_follow_views() {
    assert!(str_eq("abc", "abc"));
    assert!(!str_eq("abc", "abd"));
    assert!(contains_chars(&chars("hollow knight"), &chars("knight")));
    assert!(!contains_chars(&chars("hollow"), &chars("knight")));
    assert!(contains_chars(&chars("anything"), &chars("")));
    assert!(chars_eq(&chars("same"), &chars("same")));
}

#[test]
fn trimming_strips_ascii_whitespace() {
    assert_eq!(chars_to_string(&trim_chars(&chars("  mid dle\t\r\n"))), "mid dle");
    assert_eq!(chars_to_string(&trim_chars(&chars("   "))), "");
    assert_eq!(chars_to_string(&trim_chars(&chars("solid"))), "solid");
}

#[test]
fn decimal_parsing_is_bounded() {
    assert_eq!(parse_u32_chars(&chars("0")), Some(0));
    assert_eq!(parse_u32_chars(&chars("37")), Some(37));
    assert_eq!(parse_u32_chars(&chars("4294967295")), Some(u32::MAX));
    assert_eq!(parse_u32_chars(&chars("4294967296")), None);
    assert_eq!(parse_u32_chars(&chars("")), None);
    assert_eq!(parse_u32_chars(&chars("12a")), None);
}

#[test]
fn line_splitting_keeps_every_segment() {
    assert_eq!(strings(split_lines("a\nb\nc")), vec!["a", "b", "c"]);
    assert_eq!(strings(split_lines("a\n")), vec!["a", ""]);
    assert_eq!(strings(split_lines("")), vec![""]);
}

#[test]
fn digit_runs_find_maximal_stretches() {
    assert_eq!(strings(digit_runs_exec(&chars("37/63 unlocked"))), vec!["37", "63"]);
    assert_eq!(strings(digit_runs_exec(&chars("no digits"))), Vec::<String>::new());
    assert_eq!(strings(digit_runs_exec(&chars("007"))), vec!["007"]);
}

#[test]
fn prefix_stripping_removes_repeats() {
    let stripped = strip_all_chars(chars("ababtail"), &chars("ab"));
    assert_eq!(chars_to_string(&stripped), "tail");
    let untouched = strip_all_chars(chars("tail"), &chars("ab"));
    assert_eq!(chars_to_string(&untouched), "tail");
}

#[test]
fn find_sub_reports_the_first_occurrence() {
    assert_eq!(find_sub(&chars("a - b - c"), &chars(" - ")), Some(1));
    assert_eq!(find_sub(&chars("abc"), &chars("xyz")), None);
}
