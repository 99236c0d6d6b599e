//! Safe lookup names for stored uploads.  A stored name never contains a
//! path separator (uploads are sanitized before storage), so a lookup under
//! `/_tmp/{file}` is only ever served for a single relative path component.
//! The requested name has its traversal sequences stripped, and whatever
//! comes in, the name handed to storage keeps no separator and is never the
//! parent directory: joined under the note root it cannot resolve outside
//! that root.

use crate::text::push_char;
use vstd::prelude::*;

verus! {

/// No `/` and no `\` anywhere in the name.
pub open spec fn has_no_separator(s: Seq<char>) -> bool {
    forall|i: int| 0 <= i < s.len() ==> s[i] != '/' && s[i] != '\\'
}

/// A name that, joined under the note root, stays inside it: one relative
/// component that is not the parent directory.
pub open spec fn is_safe_tmp_name(s: Seq<char>) -> bool {
    has_no_separator(s) && s != seq!['.', '.']
}

/// `s` holds a `../` traversal sequence at position `i`.
pub open spec fn dds_at(s: Seq<char>, i: int) -> bool {
    0 <= i && i + 2 < s.len() && s[i] == '.' && s[i + 1] == '.' && s[i + 2] == '/'
}

/// `s` holds no `../` traversal sequence.
pub open spec fn no_dds(s: Seq<char>) -> bool {
    forall|i: int| !dds_at(s, i)
}

/// The media type guessed from a file name's extension.  The guess is a
/// fixed table lookup: a function of the name alone.
pub uninterp spec fn mime_of(name: Seq<char>) -> Seq<char>;

/// Relies on `mime_guess::from_path` and `MimeGuess::first_or_octet_stream`:
/// the guess is drawn from a static extension table, falling back to
/// `application/octet-stream`, so it depends on the name alone.
#[verifier::external_body]
fn guess_mime(name: &str) -> (r: String)
    ensures
        r@ == mime_of(name@),
{
    mime_guess::from_path(name).first_or_octet_stream().to_string()
}

/// Resolves a requested upload name to the stored name to look up and the
/// content type to serve it under.  The name is stripped of traversal first;
/// the media type is guessed from the stripped name.
pub fn tmp_file_target(file: &str) -> (r: (String, String))
    ensures
        is_safe_tmp_name(r.0@),
        is_safe_tmp_name(file@) ==> r.0@ == file@,
        r.1@ == mime_of(r.0@),
{
    let name = sanitize_tmp_name(file);
    let mime = guess_mime(name.as_str());
    (name, mime)
}

fn find_dds(s: &str) -> (r: Option<usize>)
    ensures
        match r {
            Some(i) => dds_at(s@, i as int),
            None => no_dds(s@),
        },
{
    let n: usize = s.unicode_len();
    if n < 3 {
        return None;
    }
    let mut i: usize = 0;
    while i <= n - 3
        invariant
            0 <= i <= n - 2,
            3 <= n == s@.len(),
            forall|j: int| 0 <= j < i ==> !dds_at(s@, j),
        decreases n - i,
    {
        if s.get_char(i) == '.' && s.get_char(i + 1) == '.' && s.get_char(i + 2) == '/' {
            return Some(i);
        }
        i += 1;
    }
    None
}

fn remove_range3(s: &str, i: usize) -> (r: String)
    requires
        i + 3 <= s@.len(),
    ensures
        r@ == s@.subrange(0, i as int) + s@.subrange(i + 3, s@.len() as int),
{
    let n: usize = s.unicode_len();
    let head = s.substring_char(0, i);
    let tail = s.substring_char(i + 3, n);
    let mut out = String::from_str(head);
    out.append(tail);
    out
}

/// Strips traversal from a requested upload name: removes `../` sequences
/// until none remains, drops any leftover separator characters, and refuses
/// the bare parent-directory name.  A name that was already safe comes
/// through unchanged.
pub fn sanitize_tmp_name(name: &str) -> (r: String)
    ensures
        is_safe_tmp_name(r@),
        is_safe_tmp_name(name@) ==> r@ == name@,
{
    let mut cur = String::from_str(name);
    let mut done = false;
    while !done
        invariant
            has_no_separator(name@) ==> cur@ == name@,
            done ==> no_dds(cur@),
        decreases cur@.len(), (if done {
            0int
        } else {
            1int
        }),
    {
        let found = find_dds(cur.as_str());
        match found {
            Some(i) => {
                proof {
                    if has_no_separator(name@) {
                        assert(cur@[i + 2] == '/');
                    }
                }
                let next = remove_range3(cur.as_str(), i);
                cur = next;
            },
            None => {
                done = true;
            },
        }
    }
    let n: usize = cur.unicode_len();
    let mut out = String::new();
    let mut i: usize = 0;
    while i < n
        invariant
            0 <= i <= n,
            n == cur@.len(),
            has_no_separator(out@),
            has_no_separator(cur@) ==> out@ == cur@.subrange(0, i as int),
        decreases n - i,
    {
        let c = cur.get_char(i);
        if c != '/' && c != '\\' {
            push_char(&mut out, c);
        }
        proof {
            if has_no_separator(cur@) {
                assert(cur@.subrange(0, i + 1) =~= cur@.subrange(0, i as int).push(
                    cur@[i as int],
                ));
            }
        }
        i += 1;
    }
    proof {
        if has_no_separator(cur@) {
            assert(cur@.subrange(0, n as int) =~= cur@);
        }
    }
    let is_parent = out.unicode_len() == 2 && out.get_char(0) == '.' && out.get_char(1) == '.';
    if is_parent {
        proof {
            assert(out@ =~= seq!['.', '.']);
        }
        let empty = String::new();
        proof {
            assert(empty@ != seq!['.', '.']) by {
                assert(seq!['.', '.'].len() == 2);
            }
        }
        empty
    } else {
        proof {
            if out@ == seq!['.', '.'] {
                assert(out@.len() == 2);
                assert(out@[0] == '.');
                assert(out@[1] == '.');
            }
        }
        out
    }
}

} // verus!
