use mini_note::tmppath::{sanitize_tmp_name, tmp_file_target};
use mini_note::upload::{
    chrono_like_timestamp, classify_image_name, plan_upload, sanitize_filename, u64_to_decimal,
    UploadError, UPLOAD_MAX_BYTES,
};

#[test]
fn sanitize_replaces_separators_and_metacharacters() {
    assert_eq!(sanitize_filename("../../etc/passwd"), ".._.._etc_passwd");
    assert_eq!(sanitize_filename("a\\b/c:d*e?f\"g<h>i|j"), "a_b_c_d_e_f_g_h_i_j");
    assert_eq!(sanitize_filename("photo.png"), "photo.png");
    assert_eq!(sanitize_filename(""), "file");
}

#[test]
fn oversized_upload_is_refused() {
    assert_eq!(UPLOAD_MAX_BYTES, 100 * 1024 * 1024);
    let r = plan_upload("big.bin", 150 * 1024 * 1024, "1700000000");
    assert_eq!(r.unwrap_err(), UploadError::TooLarge);
    assert!(plan_upload("edge.bin", UPLOAD_MAX_BYTES, "1").is_ok());
    assert!(plan_upload("over.bin", UPLOAD_MAX_BYTES + 1, "1").is_err());
}

#[test]
fn upload_plan_names_and_url() {
    let plan = plan_upload("../../etc/passwd", 10, "999").unwrap();
    assert_eq!(plan.stored_name, "999_.._.._etc_passwd");
    assert!(!plan.stored_name.contains('/'));
    assert!(!plan.stored_name.contains('\\'));
    assert_eq!(plan.url, "/_tmp/999_.._.._etc_passwd");
    assert!(!plan.is_image);

    let plan = plan_upload("cat.png", 10, "1700000000").unwrap();
    assert_eq!(plan.stored_name, "1700000000_cat.png");
    assert_eq!(plan.url, "/_tmp/1700000000_cat.png");
    assert!(plan.is_image);
}

#[test]
fn image_classification_follows_allow_list() {
    assert!(classify_image_name("a.png"));
    assert!(classify_image_name("a.JPG"));
    assert!(classify_image_name("a.JpEg"));
    assert!(classify_image_name("a.gif"));
    assert!(classify_image_name("a.webp"));
    assert!(classify_image_name("a.bmp"));
    assert!(classify_image_name("a.svg"));
    assert!(!classify_image_name("a.pdf"));
    assert!(!classify_image_name("a.tar.gz"));
    assert!(!classify_image_name("archive.png.txt"));
    assert!(!classify_image_name("noext"));
    assert!(!classify_image_name(".png"));
    assert!(classify_image_name("dir/.hidden.png"));
}

#[test]
fn timestamp_is_decimal_digits() {
    let ts = chrono_like_timestamp();
    assert!(!ts.is_empty());
    assert!(ts.chars().all(|c| c.is_ascii_digit()));
}

#[test]
fn decimal_rendering_is_exact() {
    assert_eq!(u64_to_decimal(0), "0");
    assert_eq!(u64_to_decimal(7), "7");
    assert_eq!(u64_to_decimal(10), "10");
    assert_eq!(u64_to_decimal(1700000000), "1700000000");
    assert_eq!(u64_to_decimal(u64::MAX), "18446744073709551615");
}

#[test]
fn tmp_name_traversal_is_stripped() {
    assert_eq!(sanitize_tmp_name("../../secret"), "secret");
    assert_eq!(sanitize_tmp_name("....//secret"), "secret");
    assert_eq!(sanitize_tmp_name(".."), "");
    assert_eq!(sanitize_tmp_name("/etc/passwd"), "etcpasswd");
    assert_eq!(sanitize_tmp_name("1700_file.png"), "1700_file.png");
    assert_eq!(sanitize_tmp_name("a..b"), "a..b");
    let cleaned = sanitize_tmp_name("..\\..\\secret");
    assert!(!cleaned.contains('/') && !cleaned.contains('\\'));
}

#[test]
fn tmp_target_guesses_content_type() {
    let (name, mime) = tmp_file_target("1700_cat.png");
    assert_eq!(name, "1700_cat.png");
    assert_eq!(mime, "image/png");
    let (_, mime) = tmp_file_target("blob.unknownext");
    assert_eq!(mime, "application/octet-stream");
    let (name, _) = tmp_file_target("..%2f..%2fsecret");
    assert!(!name.contains('/') && !name.contains('\\') && name != "..");
}
