//! Cache-suppression headers: note content must never be served from an
//! intermediate or browser cache, so every note and upload response carries
//! this fixed header set.

use vstd::prelude::*;

verus! {

/// The three cache-suppression header pairs, in order: `Cache-Control:
/// no-cache, no-store, must-revalidate`, `Pragma: no-cache`, `Expires: 0`.
pub fn no_cache_headers() -> (r: Vec<(String, String)>)
    ensures
        r@.len() == 3,
        r@[0].0@ == "Cache-Control"@,
        r@[0].1@ == "no-cache, no-store, must-revalidate"@,
        r@[1].0@ == "Pragma"@,
        r@[1].1@ == "no-cache"@,
        r@[2].0@ == "Expires"@,
        r@[2].1@ == "0"@,
{
    let mut r: Vec<(String, String)> = Vec::new();
    r.push(
        (
            String::from_str("Cache-Control"),
            String::from_str("no-cache, no-store, must-revalidate"),
        ),
    );
    r.push((String::from_str("Pragma"), String::from_str("no-cache")));
    r.push((String::from_str("Expires"), String::from_str("0")));
    r
}

} // verus!
