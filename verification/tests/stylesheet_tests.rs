use pdf_pipeline::stylesheet::{build_css, options_to_css};
use pdf_pipeline::types::{Margins, Orientation, PaperSize, PdfOptions};

fn no_options() -> PdfOptions {
    PdfOptions {
        paper_size: None,
        orientation: None,
        margins: None,
        page_numbers: None,
        page_number_format: None,
        toc: None,
        toc_depth: None,
        watermark: None,
    }
}

#[test]
fn base_alone_is_returned_unchanged() {
    let base = "body { font-family: serif; }";
    assert_eq!(build_css(base, None, None), base);
}

#[test]
fn empty_options_add_nothing() {
    let base = "body {}";
    let opts = no_options();
    assert_eq!(build_css(base, None, Some(&opts)), base);
}

#[test]
fn landscape_alone_defaults_to_a4() {
    let mut opts = no_options();
    opts.orientation = Some(Orientation::Landscape);
    let css = options_to_css(&opts);
    assert_eq!(css, "@page {\n  size: A4 landscape;\n}\n");
    assert!(css.contains("A4 landscape"));
}

#[test]
fn paper_size_with_landscape() {
    let mut opts = no_options();
    opts.paper_size = Some(PaperSize::A3);
    opts.orientation = Some(Orientation::Landscape);
    assert_eq!(options_to_css(&opts), "@page {\n  size: A3 landscape;\n}\n");
}

#[test]
fn paper_size_portrait_has_no_suffix() {
    let mut opts = no_options();
    opts.paper_size = Some(PaperSize::Letter);
    opts.orientation = Some(Orientation::Portrait);
    assert_eq!(options_to_css(&opts), "@page {\n  size: letter;\n}\n");
}

#[test]
fn one_margin_edge_fills_the_other_three_with_defaults() {
    let mut opts = no_options();
    opts.margins = Some(Margins {
        top: Some("1cm".to_string()),
        bottom: None,
        left: None,
        right: None,
    });
    assert_eq!(options_to_css(&opts), "@page {\n  margin: 1cm 2cm 2cm 2cm;\n}\n");
}

#[test]
fn margins_emit_in_css_edge_order() {
    let mut opts = no_options();
    opts.margins = Some(Margins {
        top: Some("1cm".to_string()),
        bottom: Some("3cm".to_string()),
        left: Some("4cm".to_string()),
        right: Some("2mm".to_string()),
    });
    assert_eq!(options_to_css(&opts), "@page {\n  margin: 1cm 2mm 3cm 4cm;\n}\n");
}

#[test]
fn page_numbers_use_default_counter() {
    let mut opts = no_options();
    opts.page_numbers = Some(true);
    assert_eq!(
        options_to_css(&opts),
        "@page {\n  @bottom-center { content: counter(page); font-size: 10pt; color: #666; }\n}\n"
    );
}

#[test]
fn page_numbers_accept_custom_expression() {
    let mut opts = no_options();
    opts.page_numbers = Some(true);
    opts.page_number_format = Some("\"Page \" counter(page)".to_string());
    assert_eq!(
        options_to_css(&opts),
        "@page {\n  @bottom-center { content: \"Page \" counter(page); font-size: 10pt; color: #666; }\n}\n"
    );
}

#[test]
fn disabled_page_numbers_emit_nothing() {
    let mut opts = no_options();
    opts.page_numbers = Some(false);
    assert_eq!(options_to_css(&opts), "");
}

#[test]
fn watermark_rule_is_emitted_even_without_page_rules() {
    let mut opts = no_options();
    opts.watermark = Some("DRAFT".to_string());
    let css = options_to_css(&opts);
    assert!(!css.contains("@page"));
    assert!(css.starts_with("body::after {\n  content: \"DRAFT\";\n"));
    assert!(css.contains("rotate(-45deg)"));
    assert!(css.contains("rgba(0, 0, 0, 0.06)"));
    assert!(css.ends_with("white-space: nowrap;\n}\n"));
}

#[test]
fn watermark_text_is_used_verbatim() {
    let mut opts = no_options();
    opts.watermark = Some("a\"b".to_string());
    assert!(options_to_css(&opts).contains("content: \"a\"b\";"));
}

#[test]
fn segments_concatenate_in_override_order() {
    let mut opts = no_options();
    opts.page_numbers = Some(true);
    let css = build_css("base", Some("p { color: red; }"), Some(&opts));
    assert_eq!(
        css,
        "base\n@page {\n  @bottom-center { content: counter(page); font-size: 10pt; color: #666; }\n}\n\np { color: red; }"
    );
}

#[test]
fn custom_css_alone_is_appended_after_newline() {
    assert_eq!(build_css("base", Some("x"), None), "base\nx");
}

#[test]
fn empty_custom_css_adds_nothing() {
    assert_eq!(build_css("base", Some(""), None), "base");
}
