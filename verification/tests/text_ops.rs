use collect_info::text::replace_str;
use collect_info::text::split_whitespace_str;
use collect_info::text::str_eq;

#[test]
fn replace_simple() {
    assert_eq!(replace_str("abcabc", "b", "XY"), "aXYcaXYc");
}

#[test]
fn replace_leftmost_non_overlapping() {
    assert_eq!(replace_str("aaa", "aa", "b"), "ba");
}

#[test]
fn replace_empty_pattern_leaves_string_unchanged() {
    assert_eq!(replace_str("hello", "", "x"), "hello");
}

#[test]
fn replace_in_empty_string() {
    assert_eq!(replace_str("", "a", "b"), "");
}

#[test]
fn replace_no_occurrence() {
    assert_eq!(replace_str("uname -a", "{base_dir}", "/tmp"), "uname -a");
}

#[test]
fn replace_whole_string() {
    assert_eq!(replace_str("secret", "secret", "****"), "****");
}

#[test]
fn replace_grows_result() {
    assert_eq!(replace_str("x{p}y{p}", "{p}", "value"), "xvalueyvalue");
}

#[test]
fn str_eq_matches_equality() {
    assert!(str_eq("nodetool", "nodetool"));
    assert!(!str_eq("nodetool", "nodetoo"));
    assert!(!str_eq("", "a"));
    assert!(str_eq("", ""));
}

#[test]
fn split_whitespace_words() {
    let words = split_whitespace_str("  a\tbc  d\n");
    let expected = vec!["a".to_string(), "bc".to_string(), "d".to_string()];
    assert_eq!(words, expected);
}

#[test]
fn split_whitespace_empty() {
    assert_eq!(split_whitespace_str(""), Vec::<String>::new());
    assert_eq!(split_whitespace_str(" \t \r\n"), Vec::<String>::new());
}

#[test]
fn split_whitespace_single_word() {
    assert_eq!(split_whitespace_str("-a"), vec!["-a".to_string()]);
}
