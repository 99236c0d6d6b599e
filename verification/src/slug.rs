//! Slug validation: a note identifier is 1 to 64 characters, each an ASCII
//! letter, digit, underscore or hyphen.  Any path segment failing this
//! grammar must never reach storage.

use vstd::prelude::*;

verus! {

/// A character allowed in a slug: `[A-Za-z0-9_-]`.
pub open spec fn is_slug_char(c: char) -> bool {
    ('a' <= c && c <= 'z') || ('A' <= c && c <= 'Z') || ('0' <= c && c <= '9') || c == '_' || c
        == '-'
}

/// The slug grammar `^[A-Za-z0-9_-]{1,64}$`.
pub open spec fn is_valid_slug(s: Seq<char>) -> bool {
    1 <= s.len() <= 64 && forall|i: int| 0 <= i < s.len() ==> is_slug_char(s[i])
}

/// Accepts a candidate note identifier iff it matches the slug grammar.
pub fn validate_slug(candidate: &str) -> (r: bool)
    ensures
        r == is_valid_slug(candidate@),
{
    let n: usize = candidate.unicode_len();
    if n < 1 || n > 64 {
        return false;
    }
    let mut i: usize = 0;
    while i < n
        invariant
            0 <= i <= n,
            n == candidate@.len(),
            1 <= n <= 64,
            forall|j: int| 0 <= j < i ==> is_slug_char(candidate@[j]),
        decreases n - i,
    {
        let c = candidate.get_char(i);
        let ok = ('a' <= c && c <= 'z') || ('A' <= c && c <= 'Z') || ('0' <= c && c <= '9') || c
            == '_' || c == '-';
        if !ok {
            return false;
        }
        i += 1;
    }
    true
}

} // verus!
