use pdf_pipeline::external::md_to_html;
use pdf_pipeline::pipeline::{OutputTarget, PreviewContent, preview_plan, render_data_gate, render_plan};
use pdf_pipeline::types::{AppError, PreviewRequest, RenderRequest};

fn object_data() -> serde_json::Value {
    let mut map = serde_json::Map::new();
    map.insert("name".to_string(), serde_json::Value::String("World".to_string()));
    serde_json::Value::Object(map)
}

fn render_request(template: &str, data: serde_json::Value) -> RenderRequest {
    RenderRequest {
        template: template.to_string(),
        data,
        css: None,
        options: None,
        client_id: None,
        pdf_name: None,
    }
}

#[test]
fn array_data_is_rejected_before_the_template_engine_runs() {
    let req = render_request("{{ name }}", serde_json::Value::Array(vec![]));
    let e = render_plan(req, "base").unwrap_err();
    assert_eq!(e, AppError::BadRequest("\"data\" must be a JSON object".to_string()));
}

#[test]
fn the_gate_admits_only_objects() {
    assert!(render_data_gate(true).is_ok());
    assert_eq!(
        render_data_gate(false).unwrap_err(),
        AppError::BadRequest("\"data\" must be a JSON object".to_string())
    );
}

#[test]
fn object_data_renders_the_template() {
    let req = render_request("Hello {{ name }}", object_data());
    let plan = render_plan(req, "base").unwrap();
    assert_eq!(plan.html, "Hello World");
    assert_eq!(plan.css, "base");
    assert_eq!(plan.target, OutputTarget::Stream);
}

#[test]
fn broken_template_is_a_template_error() {
    let req = render_request("{% if %}", object_data());
    match render_plan(req, "base").unwrap_err() {
        AppError::TemplateError(_) => {}
        other => panic!("expected a template error, got {:?}", other),
    }
}

#[test]
fn render_with_persistence_uses_the_requested_slot() {
    let mut req = render_request("hi", object_data());
    req.client_id = Some("acct1".to_string());
    req.pdf_name = Some("letter".to_string());
    let plan = render_plan(req, "base").unwrap();
    match plan.target {
        OutputTarget::Persist(t) => assert_eq!(t.url, "/download/acct1/letter.pdf"),
        OutputTarget::Stream => panic!("expected persistence"),
    }
}

#[test]
fn preview_template_mode_renders_and_rejects_arrays() {
    let mut req = PreviewRequest {
        markdown: None,
        html: None,
        template: Some("Hi {{ name }}".to_string()),
        data: Some(object_data()),
        css: None,
        engine: None,
        options: None,
        header_html: None,
        footer_html: None,
        header_template: None,
        footer_template: None,
    };
    let plan = preview_plan(req, "base").unwrap();
    match plan.content {
        PreviewContent::Html { html } => assert_eq!(html, "Hi World"),
        PreviewContent::Markdown { .. } => panic!("expected template mode"),
    }

    req = PreviewRequest {
        markdown: None,
        html: None,
        template: Some("Hi {{ name }}".to_string()),
        data: Some(serde_json::Value::Array(vec![])),
        css: None,
        engine: None,
        options: None,
        header_html: None,
        footer_html: None,
        header_template: None,
        footer_template: None,
    };
    let e = preview_plan(req, "base").unwrap_err();
    assert_eq!(e, AppError::BadRequest("\"data\" must be a JSON object".to_string()));
}

#[test]
fn markdown_becomes_html() {
    assert_eq!(md_to_html("# Heading 1"), "<h1>Heading 1</h1>\n");
    assert_eq!(md_to_html("plain *em* text"), "<p>plain <em>em</em> text</p>\n");
}
