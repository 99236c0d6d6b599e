//! Content negotiation: a request gets raw text instead of the HTML page
//! when it asks for it explicitly with the raw query flag, or when its
//! user-agent is a known command-line HTTP client, which is not expected to
//! render HTML.

use vstd::prelude::*;

verus! {

/// `p` is a prefix of `s`.
pub open spec fn starts_with(s: Seq<char>, p: Seq<char>) -> bool {
    p.len() <= s.len() && s.subrange(0, p.len() as int) == p
}

/// A user-agent treated as wanting raw text by default: `curl` or `Wget`.
pub open spec fn is_cli_agent(ua: Seq<char>) -> bool {
    starts_with(ua, seq!['c', 'u', 'r', 'l']) || starts_with(ua, seq!['W', 'g', 'e', 't'])
}

/// Whether a GET is answered with raw bytes rather than the rendered page.
pub open spec fn wants_raw(raw_flag: bool, ua: Seq<char>) -> bool {
    raw_flag || is_cli_agent(ua)
}

fn str_starts_with(s: &str, p: &str) -> (r: bool)
    ensures
        r == starts_with(s@, p@),
{
    let n: usize = s.unicode_len();
    let m: usize = p.unicode_len();
    if m > n {
        return false;
    }
    let mut i: usize = 0;
    while i < m
        invariant
            0 <= i <= m,
            n == s@.len(),
            m == p@.len(),
            m <= n,
            forall|j: int| 0 <= j < i ==> s@[j] == p@[j],
        decreases m - i,
    {
        if s.get_char(i) != p.get_char(i) {
            proof {
                assert(s@.subrange(0, m as int)[i as int] != p@[i as int]);
            }
            return false;
        }
        i += 1;
    }
    proof {
        assert(s@.subrange(0, m as int) =~= p@);
    }
    true
}

/// Decides raw-vs-rendered for one request from the explicit raw query flag
/// and the user-agent string.
pub fn negotiate_raw(raw_flag: bool, user_agent: &str) -> (r: bool)
    ensures
        r == wants_raw(raw_flag, user_agent@),
{
    if raw_flag {
        return true;
    }
    let curl = str_starts_with(user_agent, "curl");
    let wget = str_starts_with(user_agent, "Wget");
    proof {
        reveal_strlit("curl");
        reveal_strlit("Wget");
        assert("curl"@ =~= seq!['c', 'u', 'r', 'l']);
        assert("Wget"@ =~= seq!['W', 'g', 'e', 't']);
    }
    curl || wget
}

} // verus!
