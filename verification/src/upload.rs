//! Upload handling: an uploaded blob is stored in the note root under a
//! synthetic name `{unix_timestamp}_{sanitized_filename}`.  The original
//! filename only serves to derive the stored name and an extension-based
//! image hint; path separators and shell-metacharacter-like characters are
//! replaced by underscores before the name touches storage.  Two uploads of
//! the same sanitized name within the same second collide and the second
//! overwrites the first: an accepted limitation, not defended against.

use crate::text::push_char;
use vstd::prelude::*;

verus! {

/// Per-upload payload ceiling in bytes (100 MiB).
pub const UPLOAD_MAX_BYTES: usize = 100 * 1024 * 1024;

/// The characters scrubbed from an original filename: path separators and
/// shell-metacharacter-like characters.
pub open spec fn is_scrubbed_char(c: char) -> bool {
    c == '\\' || c == '/' || c == ':' || c == '*' || c == '?' || c == '"' || c == '<' || c == '>'
        || c == '|'
}

/// How one filename character is stored.
pub open spec fn sanitize_char(c: char) -> char {
    if is_scrubbed_char(c) {
        '_'
    } else {
        c
    }
}

/// The sanitized filename: every scrubbed character becomes an underscore,
/// and an empty name falls back to the default `file`.
pub open spec fn sanitize_seq(s: Seq<char>) -> Seq<char> {
    if s.len() == 0 {
        seq!['f', 'i', 'l', 'e']
    } else {
        Seq::new(s.len(), |i: int| sanitize_char(s[i]))
    }
}

/// Replaces path-separator and shell-metacharacter-like characters
/// (`\ / : * ? " < > |`) with underscores; an empty name becomes `file`.
pub fn sanitize_filename(name: &str) -> (r: String)
    ensures
        r@ == sanitize_seq(name@),
{
    let n: usize = name.unicode_len();
    if n == 0 {
        let out = String::from_str("file");
        proof {
            reveal_strlit("file");
            assert(out@ =~= sanitize_seq(name@));
        }
        return out;
    }
    let mut out = String::new();
    let mut i: usize = 0;
    while i < n
        invariant
            0 <= i <= n,
            n == name@.len(),
            n > 0,
            out@ =~= Seq::new(i as nat, |j: int| sanitize_char(name@[j])),
        decreases n - i,
    {
        let c = name.get_char(i);
        let replaced = c == '\\' || c == '/' || c == ':' || c == '*' || c == '?' || c == '"' || c
            == '<' || c == '>' || c == '|';
        if replaced {
            push_char(&mut out, '_');
        } else {
            push_char(&mut out, c);
        }
        i += 1;
    }
    proof {
        assert(out@ =~= sanitize_seq(name@));
    }
    out
}

/// An ASCII uppercase letter lowered; every other character is unchanged.
pub open spec fn lower_char(c: char) -> char {
    match c {
        'A' => 'a',
        'B' => 'b',
        'C' => 'c',
        'D' => 'd',
        'E' => 'e',
        'F' => 'f',
        'G' => 'g',
        'H' => 'h',
        'I' => 'i',
        'J' => 'j',
        'K' => 'k',
        'L' => 'l',
        'M' => 'm',
        'N' => 'n',
        'O' => 'o',
        'P' => 'p',
        'Q' => 'q',
        'R' => 'r',
        'S' => 's',
        'T' => 't',
        'U' => 'u',
        'V' => 'v',
        'W' => 'w',
        'X' => 'x',
        'Y' => 'y',
        'Z' => 'z',
        _ => c,
    }
}

fn to_lower(c: char) -> (r: char)
    ensures
        r == lower_char(c),
{
    match c {
        'A' => 'a',
        'B' => 'b',
        'C' => 'c',
        'D' => 'd',
        'E' => 'e',
        'F' => 'f',
        'G' => 'g',
        'H' => 'h',
        'I' => 'i',
        'J' => 'j',
        'K' => 'k',
        'L' => 'l',
        'M' => 'm',
        'N' => 'n',
        'O' => 'o',
        'P' => 'p',
        'Q' => 'q',
        'R' => 'r',
        'S' => 's',
        'T' => 't',
        'U' => 'u',
        'V' => 'v',
        'W' => 'w',
        'X' => 'x',
        'Y' => 'y',
        'Z' => 'z',
        _ => c,
    }
}

/// The extension found by scanning a name from its end: the characters after
/// the last dot of the last path component, provided that dot is not the
/// component's first character.  `None` when the component has no such dot.
pub open spec fn ext_scan(s: Seq<char>) -> Option<Seq<char>>
    decreases s.len(),
{
    if s.len() == 0 {
        None
    } else if s.last() == '/' || s.last() == '\\' {
        None
    } else if s.last() == '.' {
        if s.len() == 1 {
            None
        } else if s[s.len() - 2] == '/' || s[s.len() - 2] == '\\' {
            None
        } else {
            Some(Seq::empty())
        }
    } else {
        match ext_scan(s.drop_last()) {
            Some(e) => Some(e.push(s.last())),
            None => None,
        }
    }
}

/// The image-extension allow-list, compared case-insensitively.  The hint is
/// derived from the name alone; no content sniffing is performed.
pub open spec fn is_image_ext(e: Seq<char>) -> bool {
    let l = Seq::new(e.len(), |i: int| lower_char(e[i]));
    l == seq!['p', 'n', 'g'] || l == seq!['j', 'p', 'g'] || l == seq!['j', 'p', 'e', 'g'] || l
        == seq!['g', 'i', 'f'] || l == seq!['w', 'e', 'b', 'p'] || l == seq!['b', 'm', 'p'] || l
        == seq!['s', 'v', 'g']
}

/// Whether a filename carries an extension from the image allow-list.
pub open spec fn is_image_name(s: Seq<char>) -> bool {
    match ext_scan(s) {
        Some(e) => is_image_ext(e),
        None => false,
    }
}

/// Compares a candidate extension against one allow-list entry, ignoring
/// ASCII case in the candidate.  The entry itself is lowercase.
fn ext_matches(ext: &str, entry: &str) -> (r: bool)
    ensures
        r == (Seq::new(ext@.len(), |i: int| lower_char(ext@[i])) == entry@),
{
    let n: usize = ext.unicode_len();
    let m: usize = entry.unicode_len();
    if n != m {
        proof {
            assert(Seq::new(ext@.len(), |i: int| lower_char(ext@[i])).len() == ext@.len());
        }
        return false;
    }
    let mut i: usize = 0;
    while i < n
        invariant
            0 <= i <= n,
            n == ext@.len(),
            n == entry@.len(),
            forall|j: int| 0 <= j < i ==> lower_char(ext@[j]) == entry@[j],
        decreases n - i,
    {
        let c = to_lower(ext.get_char(i));
        if c != entry.get_char(i) {
            proof {
                assert(Seq::new(ext@.len(), |k: int| lower_char(ext@[k]))[i as int] != entry@[
                    i as int
                ]);
            }
            return false;
        }
        i += 1;
    }
    proof {
        assert(Seq::new(ext@.len(), |k: int| lower_char(ext@[k])) =~= entry@);
    }
    true
}

/// Extracts the extension of `name` per `ext_scan`.
fn file_extension(name: &str) -> (r: Option<String>)
    ensures
        match r {
            Some(e) => ext_scan(name@) == Some(e@),
            None => ext_scan(name@) is None,
        },
{
    let n: usize = name.unicode_len();
    let mut i: usize = n;
    proof {
        assert(name@.subrange(0, n as int) =~= name@);
        if ext_scan(name@) is Some {
            assert(ext_scan(name@)->0 + name@.subrange(n as int, n as int) =~= ext_scan(name@)->0);
        }
    }
    while i > 0
        invariant
            0 <= i <= n,
            n == name@.len(),
            ext_scan(name@) is Some <==> ext_scan(name@.subrange(0, i as int)) is Some,
            ext_scan(name@) is Some ==> ext_scan(name@)->0 == ext_scan(
                name@.subrange(0, i as int),
            )->0 + name@.subrange(i as int, n as int),
        decreases i,
    {
        let c = name.get_char(i - 1);
        proof {
            assert(name@.subrange(0, i as int).last() == name@[i - 1]);
            assert(name@.subrange(0, i as int).drop_last() =~= name@.subrange(0, i - 1));
        }
        if c == '/' || c == '\\' {
            return None;
        }
        if c == '.' {
            if i == 1 {
                return None;
            }
            let p = name.get_char(i - 2);
            proof {
                assert(name@.subrange(0, i as int)[i - 2] == name@[i - 2]);
            }
            if p == '/' || p == '\\' {
                return None;
            }
            let e = name.substring_char(i, n);
            proof {
                assert(ext_scan(name@.subrange(0, i as int)) == Some(Seq::<char>::empty()));
                assert(ext_scan(name@)->0 =~= e@);
            }
            return Some(String::from_str(e));
        }
        proof {
            if ext_scan(name@.subrange(0, i - 1)) is Some {
                assert(ext_scan(name@.subrange(0, i as int))->0 + name@.subrange(i as int, n as int)
                    =~= ext_scan(name@.subrange(0, i - 1))->0 + name@.subrange(i - 1, n as int));
            }
        }
        i -= 1;
    }
    proof {
        assert(name@.subrange(0, 0) =~= Seq::<char>::empty());
    }
    None
}

/// An ASCII decimal digit character, `'0'` through `'9'`.
pub open spec fn is_dec_digit_char(c: char) -> bool {
    '0' <= c && c <= '9'
}

/// The digit character for a value below ten.
pub open spec fn dec_digit(d: nat) -> char {
    if d == 0 {
        '0'
    } else if d == 1 {
        '1'
    } else if d == 2 {
        '2'
    } else if d == 3 {
        '3'
    } else if d == 4 {
        '4'
    } else if d == 5 {
        '5'
    } else if d == 6 {
        '6'
    } else if d == 7 {
        '7'
    } else if d == 8 {
        '8'
    } else {
        '9'
    }
}

/// The decimal rendering of a natural number, most significant digit first,
/// with no leading zeros except for zero itself.
pub open spec fn dec_seq(n: nat) -> Seq<char>
    decreases n,
{
    if n < 10 {
        seq![dec_digit(n)]
    } else {
        dec_seq(n / 10).push(dec_digit(n % 10))
    }
}

/// A decimal rendering is never empty and holds digit characters only.
pub proof fn lemma_dec_seq_digits(n: nat)
    ensures
        dec_seq(n).len() >= 1,
        forall|i: int| 0 <= i < dec_seq(n).len() ==> is_dec_digit_char(#[trigger] dec_seq(n)[i]),
    decreases n,
{
    if n < 10 {
        assert(is_dec_digit_char(dec_digit(n)));
    } else {
        lemma_dec_seq_digits(n / 10);
        assert(is_dec_digit_char(dec_digit(n % 10)));
    }
}

fn digit_char(d: u64) -> (r: char)
    requires
        d < 10,
    ensures
        r == dec_digit(d as nat),
{
    match d {
        0 => '0',
        1 => '1',
        2 => '2',
        3 => '3',
        4 => '4',
        5 => '5',
        6 => '6',
        7 => '7',
        8 => '8',
        _ => '9',
    }
}

/// Renders a number in decimal, exactly as `dec_seq` describes it.
pub fn u64_to_decimal(n: u64) -> (r: String)
    ensures
        r@ == dec_seq(n as nat),
{
    let mut digits: Vec<char> = Vec::new();
    let mut m: u64 = n;
    let d0 = digit_char(m % 10);
    digits.push(d0);
    m = m / 10;
    proof {
        if m == 0 {
            assert(dec_seq(n as nat) =~= digits@.reverse());
        } else {
            assert(dec_seq(m as nat) + digits@.reverse() =~= dec_seq(n as nat));
        }
    }
    while m > 0
        invariant
            m > 0 ==> dec_seq(n as nat) == dec_seq(m as nat) + digits@.reverse(),
            m == 0 ==> dec_seq(n as nat) == digits@.reverse(),
        decreases m,
    {
        let d = digit_char(m % 10);
        digits.push(d);
        let prev: u64 = m;
        m = m / 10;
        proof {
            if m == 0 {
                assert(dec_seq(prev as nat) =~= seq![dec_digit(prev as nat)]);
                assert(dec_seq(n as nat) =~= digits@.reverse());
            } else {
                assert(dec_seq(prev as nat) == dec_seq(m as nat).push(dec_digit(prev as nat % 10)));
                assert(dec_seq(m as nat) + digits@.reverse() =~= dec_seq(n as nat));
            }
        }
    }
    let mut out = String::new();
    while digits.len() > 0
        invariant
            out@ + digits@.reverse() == dec_seq(n as nat),
        decreases digits.len(),
    {
        let c = digits.pop().unwrap();
        push_char(&mut out, c);
        proof {
            assert(out@ + digits@.reverse() =~= dec_seq(n as nat));
        }
    }
    proof {
        assert(out@ =~= out@ + digits@.reverse());
    }
    out
}

/// Relies on `std::time::SystemTime::now`, read as whole seconds since the
/// Unix epoch; the value depends on the clock, so nothing is promised of it.
#[verifier::external_body]
fn now_unix_secs() -> u64 {
    std::time::SystemTime::now().duration_since(std::time::UNIX_EPOCH).unwrap_or_default().as_secs()
}

/// The current Unix time rendered in decimal: the timestamp half of a stored
/// upload name.  Whatever the clock returns, the result is a non-empty,
/// all-digit decimal string.
pub fn chrono_like_timestamp() -> (r: String)
    ensures
        exists|n: u64| r@ == dec_seq(n as nat),
        r@.len() >= 1,
        forall|i: int| 0 <= i < r@.len() ==> is_dec_digit_char(#[trigger] r@[i]),
{
    let now = now_unix_secs();
    let r = u64_to_decimal(now);
    proof {
        lemma_dec_seq_digits(now as nat);
        assert(r@ == dec_seq(now as nat));
    }
    r
}

/// Why an upload is refused: its payload is over the fixed byte ceiling.
#[derive(Clone, Copy, PartialEq, Eq, Structural, Debug)]
pub enum UploadError {
    TooLarge,
}

/// The outcome of a successful upload: where the blob is stored, the path a
/// client uses to reference it, and whether it may be embedded as an image.
#[derive(Debug)]
pub struct UploadPlan {
    pub stored_name: String,
    pub url: String,
    pub is_image: bool,
}

/// The path prefix under which stored uploads are served.
pub open spec fn tmp_url_prefix() -> Seq<char> {
    seq!['/', '_', 't', 'm', 'p', '/']
}

/// Decides a single upload: refuses a payload over `UPLOAD_MAX_BYTES`,
/// otherwise derives the stored name `{ts}_{sanitized filename}`, the
/// reference URL under `/_tmp/`, and the image hint from the original
/// filename's extension.
pub fn plan_upload(file_name: &str, data_len: usize, ts: &str) -> (r: Result<
    UploadPlan,
    UploadError,
>)
    ensures
        match r {
            Ok(p) => data_len <= UPLOAD_MAX_BYTES && p.stored_name@ == ts@ + seq!['_']
                + sanitize_seq(file_name@) && p.url@ == tmp_url_prefix() + p.stored_name@
                && p.is_image == is_image_name(file_name@),
            Err(e) => data_len > UPLOAD_MAX_BYTES && e == UploadError::TooLarge,
        },
{
    if data_len > UPLOAD_MAX_BYTES {
        return Err(UploadError::TooLarge);
    }
    let safe = sanitize_filename(file_name);
    let mut stored = String::from_str(ts);
    stored.append("_");
    stored.append(safe.as_str());
    let mut url = String::from_str("/_tmp/");
    url.append(stored.as_str());
    let is_image = classify_image_name(file_name);
    proof {
        reveal_strlit("_");
        reveal_strlit("/_tmp/");
        assert("_"@ =~= seq!['_']);
        assert("/_tmp/"@ =~= tmp_url_prefix());
        assert(stored@ =~= ts@ + seq!['_'] + sanitize_seq(file_name@));
        assert(url@ =~= tmp_url_prefix() + stored@);
    }
    Ok(UploadPlan { stored_name: stored, url, is_image })
}

/// Classifies a filename as image or other from its extension against the
/// fixed allow-list `png, jpg, jpeg, gif, webp, bmp, svg`, case-insensitively.
pub fn classify_image_name(name: &str) -> (r: bool)
    ensures
        r == is_image_name(name@),
{
    let ext = file_extension(name);
    match ext {
        None => false,
        Some(e) => {
            let s = e.as_str();
            let r = ext_matches(s, "png") || ext_matches(s, "jpg") || ext_matches(s, "jpeg")
                || ext_matches(s, "gif") || ext_matches(s, "webp") || ext_matches(s, "bmp")
                || ext_matches(s, "svg");
            proof {
                reveal_strlit("png");
                reveal_strlit("jpg");
                reveal_strlit("jpeg");
                reveal_strlit("gif");
                reveal_strlit("webp");
                reveal_strlit("bmp");
                reveal_strlit("svg");
                assert("png"@ =~= seq!['p', 'n', 'g']);
                assert("jpg"@ =~= seq!['j', 'p', 'g']);
                assert("jpeg"@ =~= seq!['j', 'p', 'e', 'g']);
                assert("gif"@ =~= seq!['g', 'i', 'f']);
                assert("webp"@ =~= seq!['w', 'e', 'b', 'p']);
                assert("bmp"@ =~= seq!['b', 'm', 'p']);
                assert("svg"@ =~= seq!['s', 'v', 'g']);
            }
            r
        },
    }
}

} // verus!
