//! The exclusion matcher: compiled ignore patterns and the `accept` test.
//!
//! Each ignore pattern is translated to regex text (see `crate::pattern`)
//! and compiled once at startup with the `regex` crate. A path is accepted
//! (tracked) exactly when no compiled pattern finds a match anywhere in it.

use vstd::prelude::*;
use crate::pattern::glob_regex;

verus! {

/// Whether the `regex` crate accepts `pattern` as a regular expression:
/// what `regex::Regex::new` decides, which depends on the pattern alone.
pub uninterp spec fn regex_valid(pattern: Seq<char>) -> bool;

/// Whether the regular expression `pattern` matches anywhere in `text`:
/// what `regex::Regex::is_match` returns, which depends on the pattern and
/// the text alone.
pub uninterp spec fn regex_search(pattern: Seq<char>, text: Seq<char>) -> bool;

#[verifier::external_type_specification]
#[verifier::external_body]
pub struct ExRegex(regex::Regex);

/// One compiled ignore pattern. The fields are private to this module, and
/// only `compile_regex` constructs a value, so `regex` is always the
/// compilation of `source`.
pub struct IgnorePattern {
    source: Vec<char>,
    regex: regex::Regex,
}

impl IgnorePattern {
    /// The regex text this pattern was compiled from.
    pub closed spec fn source_spec(&self) -> Seq<char> {
        self.source@
    }
}

/// Relies on regex::Regex::new: it returns `Ok` exactly when the pattern is
/// a valid regular expression (within the default size limit), and the
/// decision depends on the pattern text alone.
#[verifier::external_body]
fn compile_regex(pattern: Vec<char>) -> (r: Option<IgnorePattern>)
    ensures
        r is Some <==> regex_valid(pattern@),
        r is Some ==> r->Some_0.source_spec() == pattern@,
{
    let text: String = pattern.iter().collect();
    match regex::Regex::new(&text) {
        Ok(regex) => Some(IgnorePattern { source: pattern, regex }),
        Err(_) => None,
    }
}

/// Relies on regex::Regex::is_match: true exactly when the compiled pattern
/// matches somewhere in `text`, a function of the pattern and the text alone.
#[verifier::external_body]
fn pattern_matches(p: &IgnorePattern, text: &str) -> (r: bool)
    ensures
        r == regex_search(p.source_spec(), text@),
{
    p.regex.is_match(text)
}

/// The exclusion matcher: one compiled matcher per ignore pattern, built
/// once at startup, immutable thereafter.
pub struct PathChecker {
    patterns: Vec<IgnorePattern>,
}

/// Whether a path is tracked under the given regex texts: none of them
/// matches anywhere in the path.
pub open spec fn spec_accept(regexes: Seq<Seq<char>>, path: Seq<char>) -> bool {
    forall|i: int| 0 <= i < regexes.len() ==> !regex_search(regexes[i], path)
}

impl PathChecker {
    /// The regex texts of the compiled patterns, in configuration order.
    pub closed spec fn regexes(&self) -> Seq<Seq<char>> {
        self.patterns@.map_values(|p: IgnorePattern| p.source_spec())
    }

    /// Compiles the ignore patterns. A malformed pattern (invalid regex
    /// after escaping and wildcard expansion) is a fatal configuration
    /// error: the index of the first such pattern is returned instead.
    pub fn new(patterns: Vec<String>) -> (r: Result<PathChecker, usize>)
        ensures
            r is Ok <==> (forall|i: int|
                0 <= i < patterns@.len() ==> regex_valid(glob_regex(patterns@[i]@))),
            r is Ok ==> r->Ok_0.regexes() == patterns@.map_values(|p: String| glob_regex(p@)),
            r is Err ==> r->Err_0 < patterns@.len()
                && !regex_valid(glob_regex(patterns@[r->Err_0 as int]@))
                && (forall|i: int|
                    0 <= i < r->Err_0 ==> regex_valid(glob_regex(patterns@[i]@))),
    {
        let mut compiled: Vec<IgnorePattern> = Vec::new();
        let mut i: usize = 0;
        while i < patterns.len()
            invariant
                i <= patterns@.len(),
                compiled@.len() == i,
                forall|j: int| 0 <= j < i ==> regex_valid(glob_regex(patterns@[j]@)),
                forall|j: int|
                    0 <= j < i ==> compiled@[j].source_spec() == glob_regex(patterns@[j]@),
            decreases patterns@.len() - i,
        {
            let text = crate::pattern::convert_pattern_to_regex(patterns[i].as_str());
            match compile_regex(text) {
                Some(p) => {
                    compiled.push(p);
                },
                None => {
                    return Err(i);
                },
            }
            i = i + 1;
        }
        let checker = PathChecker { patterns: compiled };
        proof {
            assert(checker.regexes() =~= patterns@.map_values(|p: String| glob_regex(p@)));
        }
        Ok(checker)
    }

    /// Decides whether a path is tracked: false if any ignore pattern
    /// matches anywhere in the path, true otherwise (in particular, true
    /// when no pattern is configured).
    pub fn accept(&self, path: &str) -> (r: bool)
        ensures
            r == spec_accept(self.regexes(), path@),
    {
        let mut i: usize = 0;
        while i < self.patterns.len()
            invariant
                i <= self.patterns@.len(),
                forall|j: int| 0 <= j < i ==> !regex_search(self.regexes()[j], path@),
            decreases self.patterns@.len() - i,
        {
            if pattern_matches(&self.patterns[i], path) {
                assert(regex_search(self.regexes()[i as int], path@));
                return false;
            }
            i = i + 1;
        }
        true
    }
}

/// A path is rejected by a matcher built from the ignore patterns `globs`
/// exactly when at least one of them, after literal-dot escaping and
/// wildcard expansion, matches somewhere in the path.
pub proof fn lemma_reject_iff_some_pattern_matches(
    checker: PathChecker,
    globs: Seq<Seq<char>>,
    path: Seq<char>,
)
    requires
        checker.regexes() == globs.map_values(|g: Seq<char>| glob_regex(g)),
    ensures
        !spec_accept(checker.regexes(), path) <==> (exists|i: int|
            0 <= i < globs.len() && regex_search(glob_regex(globs[i]), path)),
{
    if !spec_accept(checker.regexes(), path) {
        let i = choose|i: int|
            0 <= i < checker.regexes().len() && regex_search(checker.regexes()[i], path);
        assert(regex_search(glob_regex(globs[i]), path));
    }
    if exists|i: int| 0 <= i < globs.len() && regex_search(glob_regex(globs[i]), path) {
        let i = choose|i: int| 0 <= i < globs.len() && regex_search(glob_regex(globs[i]), path);
        assert(regex_search(checker.regexes()[i], path));
    }
}

} // verus!
