use watchrun::pattern::convert_pattern_to_regex;

fn converted(pattern: &str) -> String {
    convert_pattern_to_regex(pattern).iter().collect()
}

#[test]
fn plain_text_is_unchanged() {
    assert_eq!(converted("abc"), "abc");
}

#[test]
fn empty_pattern_stays_empty() {
    assert_eq!(converted(""), "");
}

#[test]
fn dot_is_escaped() {
    assert_eq!(converted("a.b"), "a\\.b");
}

#[test]
fn star_becomes_wildcard() {
    assert_eq!(converted("*.log"), ".*\\.log");
}

#[test]
fn every_dot_and_star_is_expanded() {
    assert_eq!(converted("*.tar.*"), ".*\\.tar\\..*");
}
