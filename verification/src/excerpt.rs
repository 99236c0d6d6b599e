//! Excerpt computation: a short plain-text preview of a note used only for
//! the page-metadata description.  The excerpt keeps the first `length`
//! characters and appends a `...` truncation marker when the content is
//! longer.  It counts characters, not bytes, so multi-byte characters are
//! never split.

use vstd::prelude::*;

verus! {

/// The truncation marker appended to a shortened excerpt.
pub open spec fn excerpt_marker() -> Seq<char> {
    seq!['.', '.', '.']
}

/// The excerpt of `s` at limit `len`: all of `s` when it fits, otherwise the
/// first `len` characters followed by the marker.
pub open spec fn excerpt_seq(s: Seq<char>, len: nat) -> Seq<char> {
    if s.len() <= len {
        s
    } else {
        s.subrange(0, len as int) + excerpt_marker()
    }
}

/// Returns the first `length` characters of `text`, with `...` appended when
/// `text` has more than `length` characters.
pub fn generate_excerpt(text: &str, length: usize) -> (r: String)
    ensures
        r@ == excerpt_seq(text@, length as nat),
{
    let n: usize = text.unicode_len();
    if n <= length {
        String::from_str(text)
    } else {
        let head = text.substring_char(0, length);
        let mut out = String::from_str(head);
        out.append("...");
        proof {
            reveal_strlit("...");
            assert("..."@ =~= excerpt_marker());
        }
        out
    }
}

} // verus!
