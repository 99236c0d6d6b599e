use mini_note::escape::{html_attr_escape, html_escape};
use mini_note::excerpt::generate_excerpt;
use mini_note::policy::{get_note, post_note, Config, GetOutcome, PostOutcome};
use mini_note::render::render_html;

#[test]
fn escape_applies_all_five_substitutions() {
    assert_eq!(html_escape("<script>&\"'"), "&lt;script&gt;&amp;&quot;&#39;");
    assert_eq!(html_escape("plain text"), "plain text");
    assert_eq!(html_escape(""), "");
    assert_eq!(html_attr_escape("a\"b'c"), "a&quot;b&#39;c");
}

#[test]
fn excerpt_truncates_at_150_characters() {
    let long: String = "x".repeat(200);
    let excerpt = generate_excerpt(&long, 150);
    let expected: String = "x".repeat(150) + "...";
    assert_eq!(excerpt, expected);

    let short: String = "y".repeat(100);
    assert_eq!(generate_excerpt(&short, 150), short);

    let exact: String = "z".repeat(150);
    assert_eq!(generate_excerpt(&exact, 150), exact);
}

#[test]
fn excerpt_counts_characters_not_bytes() {
    let text: String = "\u{e9}".repeat(160);
    let excerpt = generate_excerpt(&text, 150);
    let expected: String = "\u{e9}".repeat(150) + "...";
    assert_eq!(excerpt, expected);
}

#[test]
fn rendered_page_embeds_escaped_content_and_excerpt() {
    let html = render_html("abc", "&lt;b&gt;", "hello");
    assert!(html.contains("<title>web-mini-note \u{b7} abc</title>"));
    assert!(html.contains("content=\"\u{1f4d4} hello\">"));
    assert!(html.contains("autocorrect=\"off\">&lt;b&gt;</textarea>"));
    assert!(html.contains("note/abc&nbsp;"));
}

#[test]
fn get_invalid_slug_redirects() {
    for bad in ["", "a b", "a/b", "x!"] {
        match get_note(bad, false, "Mozilla/5.0", None) {
            GetOutcome::RedirectToNew => {}
            _ => panic!("invalid slug {bad:?} did not redirect"),
        }
    }
    let long: String = "a".repeat(65);
    assert!(matches!(get_note(&long, true, "", None), GetOutcome::RedirectToNew));
}

#[test]
fn post_invalid_slug_redirects() {
    let config = Config::default();
    assert_eq!(post_note("bad slug", "text", false, 0, &config), PostOutcome::RedirectToNew);
    assert_eq!(post_note("", "text", false, 0, &config), PostOutcome::RedirectToNew);
}

#[test]
fn raw_get_returns_stored_bytes_unchanged() {
    let stored = b"hello".to_vec();
    match get_note("abc", true, "", Some(stored.clone())) {
        GetOutcome::RawContent(bytes) => assert_eq!(bytes, stored),
        _ => panic!("raw read of a present note must return its bytes"),
    }
    let content = b"<script>&\"'".to_vec();
    match get_note("abc", false, "curl/8.0", Some(content.clone())) {
        GetOutcome::RawContent(bytes) => assert_eq!(bytes, content),
        _ => panic!("cli user-agent must get raw bytes"),
    }
}

#[test]
fn raw_get_of_absent_note_is_not_found() {
    assert!(matches!(get_note("abc", true, "", None), GetOutcome::RawNotFound));
    assert!(matches!(get_note("abc", false, "Wget/1.21", None), GetOutcome::RawNotFound));
}

#[test]
fn rendered_get_escapes_content() {
    let content = b"<script>&\"'".to_vec();
    match get_note("abc", false, "Mozilla/5.0", Some(content)) {
        GetOutcome::Page(html) => {
            assert!(html.contains("&lt;script&gt;&amp;&quot;&#39;</textarea>"));
            assert!(!html.contains("<script>&\"'"));
        }
        _ => panic!("browser GET must render the page"),
    }
}

#[test]
fn rendered_get_of_absent_note_is_empty_page() {
    match get_note("abc", false, "Mozilla/5.0", None) {
        GetOutcome::Page(html) => {
            assert!(html.contains("autocorrect=\"off\"></textarea>"));
            assert!(html.contains("content=\"\u{1f4d4} \">"));
        }
        _ => panic!("browser GET of an absent note must still render"),
    }
}

#[test]
fn rendered_description_truncates_long_content() {
    let content: String = "x".repeat(200);
    match get_note("abc", false, "Mozilla/5.0", Some(content.into_bytes())) {
        GetOutcome::Page(html) => {
            let expected: String =
                "content=\"\u{1f4d4} ".to_string() + &"x".repeat(150) + "...\">";
            assert!(html.contains(&expected));
        }
        _ => panic!("browser GET must render the page"),
    }
}

#[test]
fn rendered_get_decodes_utf8_content() {
    let content = "caf\u{e9} \u{1f4d4}".as_bytes().to_vec();
    match get_note("abc", false, "Mozilla/5.0", Some(content)) {
        GetOutcome::Page(html) => {
            assert!(html.contains("autocorrect=\"off\">caf\u{e9} \u{1f4d4}</textarea>"));
        }
        _ => panic!("browser GET must render the page"),
    }
}

#[test]
fn rendered_get_of_invalid_utf8_is_empty_page() {
    let content = vec![0xff, 0xfe, 0x00];
    match get_note("abc", false, "Mozilla/5.0", Some(content.clone())) {
        GetOutcome::Page(html) => {
            assert!(html.contains("autocorrect=\"off\"></textarea>"));
        }
        _ => panic!("browser GET must render the page"),
    }
    // The same bytes come back unchanged in raw mode.
    match get_note("abc", true, "", Some(content.clone())) {
        GetOutcome::RawContent(bytes) => assert_eq!(bytes, content),
        _ => panic!("raw read must return the stored bytes"),
    }
}

#[test]
fn post_then_raw_get_round_trips() {
    let config = Config::default();
    let action = post_note("abc", "hello", false, 0, &config);
    assert_eq!(action, PostOutcome::Write);
    // The store now holds exactly the posted bytes under the slug.
    let stored = "hello".as_bytes().to_vec();
    match get_note("abc", true, "", Some(stored)) {
        GetOutcome::RawContent(bytes) => assert_eq!(bytes, b"hello".to_vec()),
        _ => panic!("round trip must return the posted bytes"),
    }
}

#[test]
fn post_empty_text_deletes_idempotently() {
    let config = Config::default();
    assert_eq!(post_note("gone", "", false, 0, &config), PostOutcome::Delete);
    assert_eq!(post_note("gone", "", true, 5, &config), PostOutcome::Delete);
    // After the delete the slug is absent, so a raw GET is a not-found.
    assert!(matches!(get_note("gone", true, "", None), GetOutcome::RawNotFound));
}

#[test]
fn capacity_guards_creation_not_overwrites() {
    let config = Config { file_limit: 3, single_file_size_limit: 10240 };
    assert_eq!(post_note("new1", "text", false, 3, &config), PostOutcome::CapacityError);
    assert_eq!(post_note("new1", "text", false, 4, &config), PostOutcome::CapacityError);
    assert_eq!(post_note("old1", "text", true, 3, &config), PostOutcome::Write);
    assert_eq!(post_note("old1", "", false, 3, &config), PostOutcome::Delete);
    assert_eq!(post_note("new1", "text", false, 2, &config), PostOutcome::Write);
}

#[test]
fn oversized_post_is_refused() {
    let config = Config { file_limit: 100, single_file_size_limit: 8 };
    assert_eq!(post_note("abc", "123456789", false, 0, &config), PostOutcome::SizeError);
    assert_eq!(post_note("abc", "12345678", false, 0, &config), PostOutcome::Write);
    // The ceiling counts bytes, not characters.
    assert_eq!(post_note("abc", "\u{e9}\u{e9}\u{e9}\u{e9}\u{e9}", false, 0, &config), PostOutcome::SizeError);
}

#[test]
fn default_config_ceilings() {
    let config = Config::default();
    assert_eq!(config.file_limit, 100000);
    assert_eq!(config.single_file_size_limit, 10240);
}
