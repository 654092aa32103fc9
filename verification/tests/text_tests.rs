use upmc::errors::{UpdateError, UpdateErrorKind};
use upmc::text::{
    contains_str, contains_str_ci, eq_str, i32_to_string, parse_u64, replace_all, split_char,
    split_lines, trim, u64_to_string,
};
use upmc::update::{download_percent, FinishState, Progress, ProgressLog};

#[test]
fn trim_strips_both_ends_only() {
    assert_eq!(trim("  a b \t\r\n"), "a b");
    assert_eq!(trim(""), "");
    assert_eq!(trim("   "), "");
    assert_eq!(trim("x"), "x");
}

#[test]
fn number_parsing_is_strict_decimal() {
    assert_eq!(parse_u64("0"), Some(0));
    assert_eq!(parse_u64("18446744073709551615"), Some(u64::MAX));
    assert_eq!(parse_u64("18446744073709551616"), None);
    assert_eq!(parse_u64(""), None);
    assert_eq!(parse_u64("12a"), None);
    assert_eq!(parse_u64("-1"), None);
}

#[test]
fn number_rendering_matches() {
    assert_eq!(u64_to_string(0), "0");
    assert_eq!(u64_to_string(42), "42");
    assert_eq!(u64_to_string(18446744073709551615), "18446744073709551615");
    assert_eq!(i32_to_string(0), "0");
    assert_eq!(i32_to_string(-1), "-1");
    assert_eq!(i32_to_string(i32::MIN), "-2147483648");
    assert_eq!(i32_to_string(i32::MAX), "2147483647");
}

#[test]
fn line_splitting_strips_carriage_returns() {
    let lines = split_lines("a\r\nb\nc");
    assert_eq!(lines, vec!["a", "b", "c"]);
    let lines = split_lines("one");
    assert_eq!(lines, vec!["one"]);
}

#[test]
fn char_splitting_keeps_empty_pieces() {
    assert_eq!(split_char("1.2.3", '.'), vec!["1", "2", "3"]);
    assert_eq!(split_char("1..3", '.'), vec!["1", "", "3"]);
    assert_eq!(split_char("abc", '.'), vec!["abc"]);
}

#[test]
fn replace_all_rewrites_every_occurrence() {
    assert_eq!(replace_all("aXbXc", "X", "__"), "a__b__c");
    assert_eq!(replace_all("nothing", "X", "Y"), "nothing");
    assert_eq!(replace_all("XX", "X", "XY"), "XYXY");
}

#[test]
fn substring_search_is_exact_and_case_folding_is_ascii() {
    assert!(contains_str("hello world", "lo wo"));
    assert!(!contains_str("hello", "Hello"));
    assert!(contains_str_ci("SSLException thrown", "sslexception"));
    assert!(contains_str_ci("connection reset", "CONNECT"));
    assert!(!contains_str_ci("fine", "error"));
}

#[test]
fn string_equality_is_character_wise() {
    assert!(eq_str("abc", "abc"));
    assert!(!eq_str("abc", "abd"));
    assert!(!eq_str("abc", "ab"));
    assert!(eq_str("", ""));
}

#[test]
fn download_percent_scales_into_the_band() {
    assert_eq!(download_percent(5, 28, 0, 100), 5);
    assert_eq!(download_percent(5, 28, 50, 100), 16);
    assert_eq!(download_percent(5, 28, 100, 100), 28);
    // capped at the band end even past the total
    assert_eq!(download_percent(2, 10, 200, 100), 10);
}

#[test]
fn error_chain_renders_outermost_first() {
    let e = UpdateError::new(UpdateErrorKind::Filesystem, "open failed".to_string())
        .wrap("reading local.json".to_string())
        .wrap("update run".to_string());
    assert!(matches!(e.kind, UpdateErrorKind::Filesystem));
    assert_eq!(e.message(), "update run: reading local.json: open failed");
}

#[test]
fn finish_outcome_is_consumed_exactly_once() {
    let mut log = ProgressLog::new();
    log.report(Progress::new(10, "step"));
    assert_eq!(log.current.percent, 10);
    assert_eq!(log.log.len(), 1);
    assert_eq!(log.log[0], "[10%] step");
    assert!(log.take_finish().is_none());
    log.set_finish(FinishState::Success);
    assert!(matches!(log.take_finish(), Some(FinishState::Success)));
    // the take consumed it: a repeated notification sees nothing
    assert!(log.take_finish().is_none());
}

#[test]
fn progress_percent_is_capped() {
    assert_eq!(Progress::new(250, "x").percent, 100);
    assert_eq!(Progress::new(99, "x").percent, 99);
}
