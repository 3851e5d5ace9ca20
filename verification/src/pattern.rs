//! Translation of ignore patterns into regular expressions.
//!
//! An ignore pattern is a limited glob dialect: a literal `.` stands for a
//! dot (so it must be escaped for the regex engine), and `*` stands for any
//! sequence of characters (so it becomes `.*`). Every other character is
//! kept as it is. The resulting regex is deliberately unanchored: matching
//! is a substring search over the path's full string representation.

use vstd::prelude::*;
use vstd::string::StrSliceExecFns;

verus! {

/// How one pattern character reads as regex text: `.` is escaped, `*` is
/// widened to `.*`, anything else stands for itself.
pub open spec fn escape_char(c: char) -> Seq<char> {
    if c == '.' {
        seq!['\\', '.']
    } else if c == '*' {
        seq!['.', '*']
    } else {
        seq![c]
    }
}

/// The regex text a whole ignore pattern translates to: each character
/// expanded by `escape_char`, in order.
pub open spec fn glob_regex(pattern: Seq<char>) -> Seq<char>
    decreases pattern.len(),
{
    if pattern.len() == 0 {
        Seq::empty()
    } else {
        glob_regex(pattern.drop_last()) + escape_char(pattern.last())
    }
}

/// Builds the regex text for one ignore pattern, character by character.
pub fn convert_pattern_to_regex(pattern: &str) -> (r: Vec<char>)
    ensures
        r@ == glob_regex(pattern@),
{
    let n: usize = pattern.unicode_len();
    let mut out: Vec<char> = Vec::new();
    let mut i: usize = 0;
    while i < n
        invariant
            i <= n,
            n == pattern@.len(),
            out@ == glob_regex(pattern@.subrange(0, i as int)),
        decreases n - i,
    {
        let c = pattern.get_char(i);
        if c == '.' {
            out.push('\\');
            out.push('.');
        } else if c == '*' {
            out.push('.');
            out.push('*');
        } else {
            out.push(c);
        }
        proof {
            let pre = pattern@.subrange(0, i + 1);
            assert(pre.drop_last() =~= pattern@.subrange(0, i as int));
            assert(pre.last() == pattern@[i as int]);
            assert(out@ =~= glob_regex(pre));
        }
        i = i + 1;
    }
    proof {
        assert(pattern@.subrange(0, n as int) =~= pattern@);
    }
    out
}

} // verus!
