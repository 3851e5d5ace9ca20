use watchrun::matcher::PathChecker;

fn checker(patterns: &[&str]) -> PathChecker {
    PathChecker::new(patterns.iter().map(|p| p.to_string()).collect())
        .expect("patterns should compile")
}

#[test]
fn no_patterns_accepts_everything() {
    let c = checker(&[]);
    assert!(c.accept("anything/at.all"));
    assert!(c.accept(""));
}

#[test]
fn star_pattern_rejects_matching_suffix() {
    let c = checker(&["*.log"]);
    assert!(!c.accept("b.log"));
    assert!(!c.accept("dir/deep/b.log"));
    assert!(c.accept("a.txt"));
}

#[test]
fn dot_is_literal_not_any_character() {
    let c = checker(&["a.c"]);
    assert!(c.accept("abc"));
    assert!(!c.accept("xa.c"));
}

#[test]
fn match_is_unanchored_substring_search() {
    let c = checker(&["tmp"]);
    assert!(!c.accept("src/tmp/file.txt"));
    assert!(c.accept("src/main.rs"));
}

#[test]
fn star_matches_the_empty_sequence() {
    let c = checker(&["a*b"]);
    assert!(!c.accept("ab"));
    assert!(!c.accept("a-anything-b"));
    assert!(c.accept("a"));
}

#[test]
fn any_matching_pattern_rejects() {
    let c = checker(&["*.log", "target"]);
    assert!(!c.accept("x.log"));
    assert!(!c.accept("target/debug/app"));
    assert!(c.accept("src/lib.rs"));
}

#[test]
fn malformed_pattern_is_a_startup_error() {
    let r = PathChecker::new(vec!["(".to_string()]);
    assert_eq!(r.err(), Some(0));
}

#[test]
fn first_malformed_pattern_is_reported() {
    let r = PathChecker::new(vec!["ok".to_string(), "(".to_string()]);
    assert_eq!(r.err(), Some(1));
}
