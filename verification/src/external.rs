//! The boundary to the outside crates the pipeline computes through:
//! markdown-to-HTML conversion, template expansion, JSON value inspection,
//! and fresh-identifier generation. Each item here is trusted: its contract
//! states what the named outside function's source or documentation shows.

use vstd::prelude::*;

verus! {

#[verifier::external_type_specification]
#[verifier::external_body]
pub struct ExJsonValue(serde_json::Value);

#[verifier::external_type_specification]
#[verifier::external_body]
pub struct ExTeraContext(tera::Context);

#[verifier::external_type_specification]
#[verifier::external_body]
pub struct ExTeraError(tera::Error);

/// Relies on serde_json::Value::is_object: true exactly when the value is a
/// JSON object. The value is opaque here, so nothing further is stated; the
/// pipeline's decision on the returned flag is verified separately.
pub assume_specification[ serde_json::Value::is_object ](v: &serde_json::Value) -> (r: bool);

/// What the markdown-to-HTML conversion emits: a function of the markdown
/// text alone.
pub uninterp spec fn html_of(markdown: Seq<char>) -> Seq<char>;

/// Relies on pulldown_cmark::html::push_html over pulldown_cmark::Parser:
/// the emitted HTML depends on the markdown text alone.
#[verifier::external_body]
pub fn md_to_html(markdown: &str) -> (r: String)
    ensures
        r@ == html_of(markdown@),
{
    let parser = pulldown_cmark::Parser::new(markdown);
    let mut html_output = String::new();
    pulldown_cmark::html::push_html(&mut html_output, parser);
    html_output
}

/// Relies on tera::Context::from_serialize: builds a rendering context from
/// a serializable value, failing on anything that is not a struct or map.
#[verifier::external_body]
pub(crate) fn context_from_value(data: &serde_json::Value) -> Result<tera::Context, tera::Error> {
    tera::Context::from_serialize(data)
}

/// Relies on tera::Tera::one_off: parses and renders a one-off template
/// against the given context, with autoescaping on. The rendering may use
/// non-deterministic template functions, so nothing is stated of the
/// result; callers handle every outcome.
#[verifier::external_body]
pub(crate) fn tera_one_off(template: &str, context: &tera::Context) -> Result<String, tera::Error> {
    tera::Tera::one_off(template, context, true)
}

/// Relies on the Display rendering of tera::Error for the message shown to
/// clients.
#[verifier::external_body]
pub(crate) fn tera_error_message(e: &tera::Error) -> String {
    e.to_string()
}

} // verus!
