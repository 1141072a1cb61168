use pdf_pipeline::paths::{
    download_file_name, download_lookup, normalize_pdf_name, path_escapes, path_within_root,
    persist_target, resolve_pdf_path,
};
use pdf_pipeline::text::split_slash;
use pdf_pipeline::types::AppError;

#[test]
fn download_reference_resolves_under_the_root() {
    let r = resolve_pdf_path("/download/acct1/report.pdf").unwrap();
    assert_eq!(r, "public/pdf/acct1/report.pdf");
}

#[test]
fn bare_reference_resolves_too() {
    assert_eq!(resolve_pdf_path("acct1/report.pdf").unwrap(), "public/pdf/acct1/report.pdf");
}

#[test]
fn extra_leading_slashes_are_stripped() {
    assert_eq!(resolve_pdf_path("//download/a/b.pdf").unwrap(), "public/pdf/a/b.pdf");
}

#[test]
fn traversal_is_rejected_at_depth_zero() {
    let e = resolve_pdf_path("/download/../secret.pdf").unwrap_err();
    assert_eq!(e, AppError::BadRequest("Invalid PDF path".to_string()));
}

#[test]
fn traversal_is_rejected_at_every_depth() {
    assert!(resolve_pdf_path("a/../../x.pdf").is_err());
    assert!(resolve_pdf_path("a/b/../../../x.pdf").is_err());
    assert!(resolve_pdf_path("a/b/c/../../../../x.pdf").is_err());
    assert!(resolve_pdf_path("../x.pdf").is_err());
}

#[test]
fn contained_traversal_is_not_an_escape() {
    assert_eq!(resolve_pdf_path("a/../b.pdf").unwrap(), "public/pdf/a/../b.pdf");
}

#[test]
fn dot_and_empty_segments_do_not_move() {
    assert!(resolve_pdf_path("./a//b.pdf").is_ok());
    assert!(resolve_pdf_path("./../a.pdf").is_err());
}

#[test]
fn escape_detection_is_segment_exact() {
    assert!(path_escapes(".."));
    assert!(path_escapes("a/../.."));
    assert!(!path_escapes("..a/b"));
    assert!(!path_escapes("a/..b"));
    assert!(!path_escapes(""));
}

#[test]
fn split_keeps_empty_segments() {
    let segs = split_slash("a//b/");
    let texts: Vec<&str> = segs.iter().map(|s| s.as_str()).collect();
    assert_eq!(texts, vec!["a", "", "b", ""]);
}

#[test]
fn within_root_requires_a_separator_boundary() {
    assert!(path_within_root("/srv/public/pdf/a/x.pdf", "/srv/public/pdf"));
    assert!(!path_within_root("/srv/public/pdf", "/srv/public/pdf"));
    assert!(!path_within_root("/srv/public/pdfx/x.pdf", "/srv/public/pdf"));
    assert!(!path_within_root("/srv", "/srv/public/pdf"));
}

#[test]
fn names_are_normalized_to_the_canonical_extension() {
    assert_eq!(normalize_pdf_name("report"), "report.pdf");
    assert_eq!(normalize_pdf_name("report.pdf"), "report.pdf");
    assert_eq!(normalize_pdf_name(""), ".pdf");
    assert_eq!(download_file_name("statement"), "statement.pdf");
}

#[test]
fn download_lookup_keeps_the_raw_name_and_normalizes_the_attachment() {
    let (path, attachment) = download_lookup("acct1", "report").unwrap();
    assert_eq!(path, "public/pdf/acct1/report");
    assert_eq!(attachment, "report.pdf");
    let (path, attachment) = download_lookup("acct1", "report.pdf").unwrap();
    assert_eq!(path, "public/pdf/acct1/report.pdf");
    assert_eq!(attachment, "report.pdf");
}

#[test]
fn download_lookup_rejects_escaping_segments() {
    assert_eq!(
        download_lookup("..", "x.pdf").unwrap_err(),
        AppError::BadRequest("Invalid PDF path".to_string())
    );
    assert!(download_lookup("acct1", "../x.pdf").is_err());
}

#[test]
fn persist_target_composes_slot_and_reference() {
    let t = persist_target("acct1", "report");
    assert_eq!(t.client_id, "acct1");
    assert_eq!(t.file_name, "report.pdf");
    assert_eq!(t.dir, "public/pdf/acct1");
    assert_eq!(t.path, "public/pdf/acct1/report.pdf");
    assert_eq!(t.url, "/download/acct1/report.pdf");
}
