//! Request-level policy: what one GET or POST does, given the slug, the
//! request's negotiation inputs, and what the caller read from the store.
//! The store itself is the backing directory; its abstract state is a map
//! from slug to stored bytes, and each decision says exactly how that state
//! must change.  The count-ceiling check uses the live count handed in by
//! the caller and is advisory: two concurrent creates may both pass it, an
//! accepted race.

use crate::escape::{escape_seq, html_escape};
use crate::excerpt::{excerpt_seq, generate_excerpt};
use crate::negotiate::{negotiate_raw, wants_raw};
use crate::render::{render_html, rendered_page};
use crate::slug::{is_valid_slug, validate_slug};
use crate::text::bytes_to_string;
use vstd::prelude::*;
use vstd::utf8::{decode_utf8, encode_utf8, valid_utf8};

verus! {

broadcast use vstd::slice::group_slice_axioms;

/// Excerpt length used for the page-metadata description, in characters.
pub const EXCERPT_LEN: usize = 150;

/// The configured ceilings, built once at startup and passed to every
/// decision; no ambient globals.
pub struct Config {
    /// Note-count ceiling: a write creating a new note is refused at or over it.
    pub file_limit: usize,
    /// Per-note payload ceiling in bytes.
    pub single_file_size_limit: usize,
}

impl Default for Config {
    /// The default ceilings: 100000 notes, 10240 bytes per note.
    fn default() -> (c: Config)
        ensures
            c.file_limit == 100000,
            c.single_file_size_limit == 10240,
    {
        Config { file_limit: 100000, single_file_size_limit: 10240 }
    }
}

/// The bytes a GET carries in, viewed abstractly.
pub open spec fn stored_view(o: Option<Vec<u8>>) -> Option<Seq<u8>> {
    match o {
        Some(v) => Some(v@),
        None => None,
    }
}

/// The text a note's page shows: the stored bytes decoded as UTF-8, or
/// empty when the note is absent or its bytes are not valid UTF-8.
pub open spec fn page_text(stored: Option<Seq<u8>>) -> Seq<char> {
    match stored {
        Some(b) => if valid_utf8(b) {
            decode_utf8(b)
        } else {
            Seq::empty()
        },
        None => Seq::empty(),
    }
}

/// The full page shown for a note: its text escaped into the editor and its
/// excerpt in the description, per the fixed template.
pub open spec fn page_for(note: Seq<char>, stored: Option<Seq<u8>>) -> Seq<char> {
    rendered_page(
        note,
        escape_seq(page_text(stored)),
        excerpt_seq(page_text(stored), EXCERPT_LEN as nat),
    )
}

/// What one GET of a note path answers.
pub enum GetOutcome {
    /// The identifier fails the slug grammar: redirect to a fresh id.
    RedirectToNew,
    /// Raw mode, note present: exactly the stored bytes, as plain text.
    RawContent(Vec<u8>),
    /// Raw mode, note absent: not found.
    RawNotFound,
    /// Rendered mode: the editor page, present or not.
    Page(String),
}

/// Decides one GET: an invalid slug redirects and never touches storage; a
/// raw-mode request gets the stored bytes unchanged or a not-found; any
/// other request gets the rendered page, built from the stored bytes.
pub fn get_note(note: &str, raw_flag: bool, user_agent: &str, stored: Option<Vec<u8>>) -> (r:
    GetOutcome)
    ensures
        (r is RedirectToNew) == !is_valid_slug(note@),
        is_valid_slug(note@) ==> match r {
            GetOutcome::RedirectToNew => false,
            GetOutcome::RawContent(c) => wants_raw(raw_flag, user_agent@) && stored is Some && c@
                == stored->0@,
            GetOutcome::RawNotFound => wants_raw(raw_flag, user_agent@) && stored is None,
            GetOutcome::Page(h) => !wants_raw(raw_flag, user_agent@) && h@ == page_for(
                note@,
                stored_view(stored),
            ),
        },
{
    if !validate_slug(note) {
        return GetOutcome::RedirectToNew;
    }
    let raw = negotiate_raw(raw_flag, user_agent);
    if raw {
        match stored {
            Some(b) => GetOutcome::RawContent(b),
            None => GetOutcome::RawNotFound,
        }
    } else {
        let text: String = match stored {
            Some(b) => match bytes_to_string(b) {
                Some(s) => s,
                None => String::new(),
            },
            None => String::new(),
        };
        let esc = html_escape(text.as_str());
        let exc = generate_excerpt(text.as_str(), EXCERPT_LEN);
        let html = render_html(note, esc.as_str(), exc.as_str());
        GetOutcome::Page(html)
    }
}

/// What one POST of a note path must do.
#[derive(Clone, Copy, PartialEq, Eq, Structural, Debug)]
pub enum PostOutcome {
    /// The identifier fails the slug grammar: redirect to a fresh id.
    RedirectToNew,
    /// The write would create a new note while the store is at the ceiling.
    CapacityError,
    /// The payload is over the per-note byte ceiling.
    SizeError,
    /// Empty text: remove the note's file if it exists.
    Delete,
    /// Write the text's bytes as the note's new content.
    Write,
}

/// The count ceiling blocks a POST iff it would create a new note (the slug
/// is absent and the text non-empty) while the count is at or over the
/// ceiling.  Overwrites and deletions pass.
pub open spec fn capacity_blocked(count: nat, limit: nat, exists: bool, creates: bool) -> bool {
    count >= limit && !exists && creates
}

/// Decides one POST from the slug, the submitted text, whether the note
/// already exists, and the live note count.
pub fn post_note(
    note: &str,
    text: &str,
    note_exists: bool,
    note_count: usize,
    config: &Config,
) -> (r: PostOutcome)
    ensures
        (r is RedirectToNew) == !is_valid_slug(note@),
        (r is CapacityError) == (is_valid_slug(note@) && capacity_blocked(
            note_count as nat,
            config.file_limit as nat,
            note_exists,
            text@.len() != 0,
        )),
        (r is SizeError) == (is_valid_slug(note@) && !capacity_blocked(
            note_count as nat,
            config.file_limit as nat,
            note_exists,
            text@.len() != 0,
        ) && encode_utf8(text@).len() > config.single_file_size_limit),
        (r is Delete) == (is_valid_slug(note@) && text@.len() == 0 && encode_utf8(text@).len()
            <= config.single_file_size_limit),
        (r is Write) == (is_valid_slug(note@) && text@.len() != 0 && !capacity_blocked(
            note_count as nat,
            config.file_limit as nat,
            note_exists,
            true,
        ) && encode_utf8(text@).len() <= config.single_file_size_limit),
{
    if !validate_slug(note) {
        return PostOutcome::RedirectToNew;
    }
    let creates = !text.is_empty();
    if note_count >= config.file_limit && !note_exists && creates {
        return PostOutcome::CapacityError;
    }
    let text_bytes: &[u8] = text.as_bytes();
    let byte_len: usize = text_bytes.len();
    if byte_len > config.single_file_size_limit {
        return PostOutcome::SizeError;
    }
    if text.is_empty() {
        proof {
            assert(encode_utf8(text@) =~= Seq::<u8>::empty());
        }
        PostOutcome::Delete
    } else {
        PostOutcome::Write
    }
}

/// The abstract store after carrying out a POST decision: `Write` stores
/// the text's bytes under the slug, `Delete` removes the slug, and every
/// other outcome leaves the store untouched.
pub open spec fn apply_post(
    notes: Map<Seq<char>, Seq<u8>>,
    slug: Seq<char>,
    text_bytes: Seq<u8>,
    r: PostOutcome,
) -> Map<Seq<char>, Seq<u8>> {
    match r {
        PostOutcome::Write => notes.insert(slug, text_bytes),
        PostOutcome::Delete => notes.remove(slug),
        _ => notes,
    }
}

/// A raw-mode read of the abstract store: the stored bytes, or absent.
pub open spec fn read_raw(notes: Map<Seq<char>, Seq<u8>>, slug: Seq<char>) -> Option<Seq<u8>> {
    if notes.contains_key(slug) {
        Some(notes[slug])
    } else {
        None
    }
}

/// A redirected POST leaves every slug of the store exactly as it was: an
/// invalid identifier never touches storage.
pub proof fn lemma_redirect_leaves_store(
    notes: Map<Seq<char>, Seq<u8>>,
    slug: Seq<char>,
    text_bytes: Seq<u8>,
)
    ensures
        apply_post(notes, slug, text_bytes, PostOutcome::RedirectToNew) == notes,
        apply_post(notes, slug, text_bytes, PostOutcome::CapacityError) == notes,
        apply_post(notes, slug, text_bytes, PostOutcome::SizeError) == notes,
{
}

/// Round trip: after a `Write` of some bytes under a slug, a raw read of
/// that slug returns exactly those bytes.
pub proof fn lemma_write_then_read_raw(
    notes: Map<Seq<char>, Seq<u8>>,
    slug: Seq<char>,
    text_bytes: Seq<u8>,
)
    ensures
        read_raw(apply_post(notes, slug, text_bytes, PostOutcome::Write), slug) == Some(text_bytes),
{
}

/// Posting empty text is an idempotent delete: afterwards the slug is
/// absent, and deleting an absent slug leaves the store unchanged rather
/// than failing.
pub proof fn lemma_delete_leaves_absent(
    notes: Map<Seq<char>, Seq<u8>>,
    slug: Seq<char>,
    text_bytes: Seq<u8>,
)
    ensures
        read_raw(apply_post(notes, slug, text_bytes, PostOutcome::Delete), slug) is None,
        !notes.contains_key(slug) ==> apply_post(notes, slug, text_bytes, PostOutcome::Delete)
            =~= notes,
{
}

/// The ceiling guards creation pressure, not overwrites: at or over the
/// ceiling a POST creating a new note is blocked, while a POST to an
/// existing note never is.
pub proof fn lemma_capacity_guards_creation(count: nat, limit: nat, exists: bool, creates: bool)
    ensures
        count >= limit && !exists && creates ==> capacity_blocked(count, limit, exists, creates),
        exists ==> !capacity_blocked(count, limit, exists, creates),
        count < limit ==> !capacity_blocked(count, limit, exists, creates),
{
}

} // verus!
