use pdf_pipeline::aux::{AuxInput, resolve_header_footer, template_not_found_error};
use pdf_pipeline::censor::censor_block_str;
use pdf_pipeline::pipeline::{
    ConvertPlan, OutputTarget, PreviewContent, convert_plan, html_to_pdf_plan, merge_plan,
    output_target, preview_plan, protect_plan, watermark_plan,
};
use pdf_pipeline::types::{
    AppError, ConvertForm, ConvertRequest, HtmlToPdfRequest, MergeRequest, PdfEngine,
    PreviewRequest, ProtectRequest, WatermarkRequest, health,
};

fn convert_request(markdown: &str) -> ConvertRequest {
    ConvertRequest {
        markdown: markdown.to_string(),
        css: None,
        engine: None,
        options: None,
        header_html: None,
        footer_html: None,
        header_template: None,
        footer_template: None,
        client_id: None,
        pdf_name: None,
    }
}

fn preview_request() -> PreviewRequest {
    PreviewRequest {
        markdown: None,
        html: None,
        template: None,
        data: None,
        css: None,
        engine: None,
        options: None,
        header_html: None,
        footer_html: None,
        header_template: None,
        footer_template: None,
    }
}

#[test]
fn inline_content_wins_over_template() {
    let r = resolve_header_footer(Some("<b>header</b>"), Some("head.html")).unwrap();
    assert_eq!(r, AuxInput::Inline("<b>header</b>".to_string()));
}

#[test]
fn empty_inline_falls_back_to_template() {
    let r = resolve_header_footer(Some(""), Some("head.html")).unwrap();
    assert_eq!(
        r,
        AuxInput::Template { name: "head.html".to_string(), path: "templates/head.html".to_string() }
    );
}

#[test]
fn escaping_template_name_is_rejected() {
    let e = resolve_header_footer(None, Some("../../etc/passwd")).unwrap_err();
    assert_eq!(e, AppError::BadRequest("Invalid template path".to_string()));
}

#[test]
fn absent_inputs_resolve_to_nothing() {
    assert_eq!(resolve_header_footer(None, None).unwrap(), AuxInput::Absent);
    assert_eq!(resolve_header_footer(Some(""), Some("")).unwrap(), AuxInput::Absent);
}

#[test]
fn missing_template_error_names_the_file() {
    assert_eq!(
        template_not_found_error("head.html"),
        AppError::NotFound("Template file not found: head.html".to_string())
    );
}

#[test]
fn convert_without_persistence_streams() {
    let plan = convert_plan(convert_request("# Heading 1"), "base").unwrap();
    assert_eq!(plan.content, "# Heading 1");
    assert_eq!(plan.css, "base");
    assert_eq!(plan.engine, PdfEngine::Weasyprint);
    assert_eq!(plan.header, AuxInput::Absent);
    assert_eq!(plan.footer, AuxInput::Absent);
    assert_eq!(plan.target, OutputTarget::Stream);
}

#[test]
fn convert_with_persistence_returns_the_download_reference() {
    let mut req = convert_request("# Heading 1");
    req.client_id = Some("acct1".to_string());
    req.pdf_name = Some("report".to_string());
    let plan = convert_plan(req, "base").unwrap();
    match plan.target {
        OutputTarget::Persist(t) => {
            assert_eq!(t.url, "/download/acct1/report.pdf");
            assert_eq!(t.path, "public/pdf/acct1/report.pdf");
            assert_eq!(t.file_name, "report.pdf");
        }
        OutputTarget::Stream => panic!("expected persistence"),
    }
}

#[test]
fn persistence_needs_both_namespace_and_name() {
    assert_eq!(output_target(&Some("acct1".to_string()), &None), OutputTarget::Stream);
    assert_eq!(output_target(&None, &Some("report".to_string())), OutputTarget::Stream);
}

#[test]
fn convert_preprocesses_markdown_content() {
    let plan = convert_plan(convert_request("x{{CENSOR}}y"), "base").unwrap();
    assert_eq!(plan.content, format!("x{}y", censor_block_str()));
}

#[test]
fn convert_rejects_escaping_header_template() {
    let mut req = convert_request("# t");
    req.header_template = Some("../secrets.html".to_string());
    let e = convert_plan(req, "base").unwrap_err();
    assert_eq!(e, AppError::BadRequest("Invalid template path".to_string()));
}

#[test]
fn convert_keeps_selected_engine() {
    let mut req = convert_request("# t");
    req.engine = Some(PdfEngine::Pdflatex);
    let plan: ConvertPlan = convert_plan(req, "base").unwrap();
    assert_eq!(plan.engine, PdfEngine::Pdflatex);
}

#[test]
fn legacy_form_maps_to_the_same_pipeline() {
    let form = ConvertForm {
        markdown: "# hi".to_string(),
        css: Some("p{}".to_string()),
        engine: None,
        header_template: Some("h.html".to_string()),
        footer_template: None,
        client_id: Some("c".to_string()),
        pdf_name: Some("n".to_string()),
    };
    let req = form.into_request();
    assert_eq!(req.markdown, "# hi");
    assert_eq!(req.css, Some("p{}".to_string()));
    assert!(req.options.is_none());
    assert!(req.header_html.is_none());
    assert_eq!(req.header_template, Some("h.html".to_string()));
    assert_eq!(req.client_id, Some("c".to_string()));
}

#[test]
fn html_to_pdf_passes_content_through() {
    let req = HtmlToPdfRequest {
        html: "<p>hi</p>".to_string(),
        css: Some("p{}".to_string()),
        options: None,
        client_id: None,
        pdf_name: None,
    };
    let plan = html_to_pdf_plan(req, "base");
    assert_eq!(plan.html, "<p>hi</p>");
    assert_eq!(plan.css, "base\np{}");
    assert_eq!(plan.target, OutputTarget::Stream);
}

#[test]
fn merge_with_one_input_is_rejected_before_any_tool_runs() {
    let req = MergeRequest {
        pdfs: vec!["/download/a/x.pdf".to_string()],
        client_id: None,
        pdf_name: None,
    };
    let e = merge_plan(req).unwrap_err();
    assert_eq!(e, AppError::BadRequest("At least 2 PDFs are required for merging".to_string()));
}

#[test]
fn merge_with_two_inputs_keeps_their_order() {
    let req = MergeRequest {
        pdfs: vec!["/download/a/x.pdf".to_string(), "/download/b/y.pdf".to_string()],
        client_id: Some("acct1".to_string()),
        pdf_name: Some("combined".to_string()),
    };
    let plan = merge_plan(req).unwrap();
    assert_eq!(plan.sources, vec!["public/pdf/a/x.pdf", "public/pdf/b/y.pdf"]);
    match plan.target {
        OutputTarget::Persist(t) => assert_eq!(t.url, "/download/acct1/combined.pdf"),
        OutputTarget::Stream => panic!("expected persistence"),
    }
}

#[test]
fn merge_rejects_an_escaping_reference() {
    let req = MergeRequest {
        pdfs: vec!["/download/a/x.pdf".to_string(), "../../etc/shadow".to_string()],
        client_id: None,
        pdf_name: None,
    };
    assert_eq!(merge_plan(req).unwrap_err(), AppError::BadRequest("Invalid PDF path".to_string()));
}

#[test]
fn merge_without_persistence_fields_streams_the_bytes() {
    let req = MergeRequest {
        pdfs: vec!["a/x.pdf".to_string(), "b/y.pdf".to_string()],
        client_id: None,
        pdf_name: None,
    };
    let plan = merge_plan(req).unwrap();
    assert_eq!(plan.target, OutputTarget::Stream);
}

#[test]
fn merge_with_only_one_persistence_field_streams_too() {
    let req = MergeRequest {
        pdfs: vec!["a/x.pdf".to_string(), "b/y.pdf".to_string()],
        client_id: Some("acct1".to_string()),
        pdf_name: None,
    };
    assert_eq!(merge_plan(req).unwrap().target, OutputTarget::Stream);
}

#[test]
fn watermark_plan_builds_the_overlay_page() {
    let req = WatermarkRequest {
        pdf: "/download/a/x.pdf".to_string(),
        text: "CONFIDENTIAL".to_string(),
        opacity: None,
        angle: None,
        client_id: None,
        pdf_name: None,
    };
    let plan = watermark_plan(req).unwrap();
    assert_eq!(plan.source, "public/pdf/a/x.pdf");
    assert!(plan.overlay_html.starts_with("<!DOCTYPE html>"));
    assert!(plan.overlay_html.contains("rgba(0, 0, 0, 0.06)"));
    assert!(plan.overlay_html.contains("rotate(-45deg)"));
    assert!(plan.overlay_html.contains("<div class=\"watermark\">CONFIDENTIAL</div>"));
    assert!(plan.overlay_html.ends_with("</html>"));
    assert_eq!(plan.target, OutputTarget::Stream);
}

#[test]
fn watermark_plan_uses_caller_opacity_and_angle() {
    let req = WatermarkRequest {
        pdf: "a/x.pdf".to_string(),
        text: "W".to_string(),
        opacity: Some("0.5".to_string()),
        angle: Some("30".to_string()),
        client_id: None,
        pdf_name: None,
    };
    let plan = watermark_plan(req).unwrap();
    assert!(plan.overlay_html.contains("rgba(0, 0, 0, 0.5)"));
    assert!(plan.overlay_html.contains("transform: rotate(30deg);"));
    assert!(plan.overlay_html.contains("translate(-50%, -50%) rotate(30deg)"));
}

#[test]
fn watermark_overlay_document_is_exact() {
    let req = WatermarkRequest {
        pdf: "a/x.pdf".to_string(),
        text: "W".to_string(),
        opacity: None,
        angle: None,
        client_id: None,
        pdf_name: None,
    };
    let plan = watermark_plan(req).unwrap();
    let expected = format!(
        "<!DOCTYPE html>\n<html>\n<head>\n<style>\n@page {{ size: A4; margin: 0; }}\nbody {{\n  margin: 0;\n  display: flex;\n  align-items: center;\n  justify-content: center;\n  height: 100vh;\n  width: 100vw;\n}}\n.watermark {{\n  font-size: 80pt;\n  color: rgba(0, 0, 0, {o});\n  transform: rotate({a}deg);\n  white-space: nowrap;\n  position: fixed;\n  top: 50%;\n  left: 50%;\n  transform: translate(-50%, -50%) rotate({a}deg);\n}}\n</style>\n</head>\n<body>\n<div class=\"watermark\">{t}</div>\n</body>\n</html>",
        o = "0.06",
        a = "-45",
        t = "W"
    );
    assert_eq!(plan.overlay_html, expected);
}

#[test]
fn preview_markdown_mode_rejects_escaping_footer_template() {
    let mut req = preview_request();
    req.markdown = Some("# p".to_string());
    req.footer_template = Some("../../f.html".to_string());
    let e = preview_plan(req, "base").unwrap_err();
    assert_eq!(e, AppError::BadRequest("Invalid template path".to_string()));
}

#[test]
fn convert_composes_the_layered_stylesheet() {
    let mut req = convert_request("# t");
    req.css = Some("h1 { color: blue; }".to_string());
    let plan = convert_plan(req, "body {}").unwrap();
    assert_eq!(plan.css, "body {}\nh1 { color: blue; }");
}

#[test]
fn watermark_rejects_an_escaping_reference() {
    let req = WatermarkRequest {
        pdf: "../x.pdf".to_string(),
        text: "W".to_string(),
        opacity: None,
        angle: None,
        client_id: None,
        pdf_name: None,
    };
    assert_eq!(
        watermark_plan(req).unwrap_err(),
        AppError::BadRequest("Invalid PDF path".to_string())
    );
}

#[test]
fn protect_plan_carries_password_and_source() {
    let req = ProtectRequest {
        pdf: "/download/a/x.pdf".to_string(),
        password: "s3cret".to_string(),
        client_id: Some("acct1".to_string()),
        pdf_name: Some("locked".to_string()),
    };
    let plan = protect_plan(req).unwrap();
    assert_eq!(plan.source, "public/pdf/a/x.pdf");
    assert_eq!(plan.password, "s3cret");
    match plan.target {
        OutputTarget::Persist(t) => assert_eq!(t.url, "/download/acct1/locked.pdf"),
        OutputTarget::Stream => panic!("expected persistence"),
    }
}

#[test]
fn preview_with_markdown_plans_a_markdown_render() {
    let mut req = preview_request();
    req.markdown = Some("# p".to_string());
    let plan = preview_plan(req, "base").unwrap();
    match plan.content {
        PreviewContent::Markdown { content, engine, .. } => {
            assert_eq!(content, "# p");
            assert_eq!(engine, PdfEngine::Weasyprint);
        }
        PreviewContent::Html { .. } => panic!("expected markdown mode"),
    }
}

#[test]
fn preview_with_two_content_modes_is_rejected() {
    let mut req = preview_request();
    req.markdown = Some("# p".to_string());
    req.html = Some("<p>also</p>".to_string());
    let e = preview_plan(req, "base").unwrap_err();
    assert_eq!(
        e,
        AppError::BadRequest("Provide exactly one of: markdown, html, or template+data".to_string())
    );
}

#[test]
fn preview_with_all_three_content_modes_is_rejected() {
    let mut req = preview_request();
    req.markdown = Some("# p".to_string());
    req.html = Some("<p>x</p>".to_string());
    req.template = Some("{{ a }}".to_string());
    req.data = Some(serde_json::Value::Object(serde_json::Map::new()));
    assert!(preview_plan(req, "base").is_err());
}

#[test]
fn preview_with_template_but_no_data_is_not_a_populated_variant() {
    let mut req = preview_request();
    req.markdown = Some("# p".to_string());
    req.template = Some("{{ a }}".to_string());
    let plan = preview_plan(req, "base").unwrap();
    assert!(matches!(plan.content, PreviewContent::Markdown { .. }));
}

#[test]
fn preview_takes_ready_html() {
    let mut req = preview_request();
    req.html = Some("<p>x</p>".to_string());
    let plan = preview_plan(req, "base").unwrap();
    match plan.content {
        PreviewContent::Html { html } => assert_eq!(html, "<p>x</p>"),
        PreviewContent::Markdown { .. } => panic!("expected html mode"),
    }
}

#[test]
fn preview_without_content_is_rejected() {
    let e = preview_plan(preview_request(), "base").unwrap_err();
    assert_eq!(
        e,
        AppError::BadRequest("Provide one of: markdown, html, or template+data".to_string())
    );
}

#[test]
fn error_envelope_maps_kinds_and_statuses() {
    let e = AppError::ProcessFailed { message: "Pandoc conversion failed".to_string(), stderr: "boom".to_string() };
    assert_eq!(e.status_code(), 500);
    let resp = e.to_response();
    assert_eq!(resp.error, "Pandoc conversion failed");
    assert_eq!(resp.details, "boom");

    let e = AppError::Io("disk full".to_string());
    assert_eq!(e.status_code(), 500);
    assert_eq!(e.error_label(), "IO error");
    // The carried text stays available to the holder, but the client
    // envelope never leaks it.
    assert_eq!(e.details(), "disk full");
    assert_eq!(e.to_response().details, "An internal error occurred");

    let e = AppError::BadRequest("nope".to_string());
    assert_eq!(e.status_code(), 400);
    assert_eq!(e.error_label(), "Bad request");

    let e = AppError::NotFound("gone".to_string());
    assert_eq!(e.status_code(), 404);
    assert_eq!(e.error_label(), "Not found");

    let e = AppError::TemplateError("bad template".to_string());
    assert_eq!(e.status_code(), 400);
    assert_eq!(e.error_label(), "Template error");
    assert_eq!(e.details(), "bad template");
}

#[test]
fn health_reports_the_engine_inventory() {
    let h = health();
    assert_eq!(h.status, "ok");
    assert_eq!(h.version, "0.1.0");
    assert_eq!(h.engines, vec!["weasyprint", "wkhtmltopdf", "pdflatex"]);
}
