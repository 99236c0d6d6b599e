use mini_note::headers::no_cache_headers;
use mini_note::idgen::random_note_id;
use mini_note::negotiate::negotiate_raw;
use mini_note::slug::validate_slug;

#[test]
fn validate_slug_accepts_grammar() {
    assert!(validate_slug("abc"));
    assert!(validate_slug("A_b-9"));
    assert!(validate_slug("x"));
    let max: String = "a".repeat(64);
    assert!(validate_slug(&max));
}

#[test]
fn validate_slug_rejects_bad_identifiers() {
    assert!(!validate_slug(""));
    let long: String = "a".repeat(65);
    assert!(!validate_slug(&long));
    assert!(!validate_slug("a/b"));
    assert!(!validate_slug("a b"));
    assert!(!validate_slug("ab!"));
    assert!(!validate_slug("caf\u{e9}"));
}

#[test]
fn generate_five_chars_from_alphabet() {
    let alphabet = "234579abcdefghjkmnpqrstwxyz";
    assert_eq!(alphabet.chars().count(), 27);
    for _ in 0..50 {
        let id = random_note_id(5);
        assert_eq!(id.chars().count(), 5);
        for c in id.chars() {
            assert!(alphabet.contains(c), "unexpected id character {c}");
        }
    }
}

#[test]
fn generate_other_lengths() {
    assert_eq!(random_note_id(0).chars().count(), 0);
    assert_eq!(random_note_id(12).chars().count(), 12);
}

#[test]
fn cli_agents_get_raw() {
    assert!(negotiate_raw(false, "curl/8.5.0"));
    assert!(negotiate_raw(false, "Wget/1.21"));
    assert!(negotiate_raw(true, "Mozilla/5.0"));
    assert!(!negotiate_raw(false, "Mozilla/5.0"));
    assert!(!negotiate_raw(false, ""));
    assert!(!negotiate_raw(false, "WGET/1.0"));
}

#[test]
fn cache_suppression_headers() {
    let h = no_cache_headers();
    assert_eq!(h.len(), 3);
    assert_eq!(h[0].0, "Cache-Control");
    assert_eq!(h[0].1, "no-cache, no-store, must-revalidate");
    assert_eq!(h[1].0, "Pragma");
    assert_eq!(h[1].1, "no-cache");
    assert_eq!(h[2].0, "Expires");
    assert_eq!(h[2].1, "0");
}
