//! The pipeline orchestrator: one plan builder per request kind. A plan
//! holds every decision of the pipeline — preprocessed content, composed
//! stylesheet, resolved auxiliary inputs, validated source references and
//! the output disposition — so that the surrounding binary only performs
//! the file and process I/O the plan calls for.

use vstd::prelude::*;
use crate::aux::{AuxInput, resolve_header_footer};
use crate::censor::{process_censor, spec_process_censor};
use crate::external::{context_from_value, tera_error_message, tera_one_off};
use crate::paths::{
    PersistTarget, persist_target, resolve_pdf_path, spec_artifact_root, spec_is_target_for,
    spec_path_escapes, spec_ref_escapes, spec_ref_relative,
};
use crate::stylesheet::{build_css, spec_build_css, spec_options_css};
use crate::types::{
    AppError, ConvertRequest, HtmlToPdfRequest, MergeRequest, PdfEngine, PdfOptions,
    PreviewRequest, ProtectRequest, RenderRequest, WatermarkRequest,
};

verus! {

/// A borrowed view of an optional owned string.
fn opt_str(o: &Option<String>) -> (r: Option<&str>)
    ensures
        o matches Some(s) ==> (r matches Some(t) && t@ == s@),
        o is None ==> r is None,
{
    match o {
        Some(s) => Some(s.as_str()),
        None => None,
    }
}

/// Where the produced document goes: streamed back to the client, or
/// persisted under a namespace and answered with its download reference.
#[derive(Clone, Debug, PartialEq)]
pub enum OutputTarget {
    Stream,
    Persist(PersistTarget),
}

/// The branch rule for the final output: persistence happens exactly when
/// both a namespace and a name were supplied.
pub open spec fn spec_output_target(
    client_id: Option<String>,
    pdf_name: Option<String>,
    t: OutputTarget,
) -> bool {
    match (client_id, pdf_name) {
        (Some(c), Some(n)) => t matches OutputTarget::Persist(p) && spec_is_target_for(p, c@, n@),
        _ => t is Stream,
    }
}

/// Decide the output disposition of a request: persist exactly when both a
/// namespace and a name were supplied, stream otherwise.
pub fn output_target(client_id: &Option<String>, pdf_name: &Option<String>) -> (r: OutputTarget)
    ensures
        spec_output_target(*client_id, *pdf_name, r),
{
    match (client_id, pdf_name) {
        (Some(c), Some(n)) => OutputTarget::Persist(persist_target(c.as_str(), n.as_str())),
        _ => OutputTarget::Stream,
    }
}

/// The engine a request selects: the stated one, or the default.
pub open spec fn spec_engine_choice(e: Option<PdfEngine>) -> PdfEngine {
    match e {
        Some(e) => e,
        None => PdfEngine::Weasyprint,
    }
}

/// The options-derived stylesheet segment of a request.
pub open spec fn spec_options_css_opt(o: Option<PdfOptions>) -> Seq<char> {
    match o {
        Some(o) => spec_options_css(o),
        None => Seq::<char>::empty(),
    }
}

/// The override stylesheet segment of a request.
pub open spec fn spec_custom_css(c: Option<String>) -> Seq<char> {
    match c {
        Some(c) => c@,
        None => Seq::<char>::empty(),
    }
}

/// Non-empty inline content wins over any template name.
pub open spec fn spec_aux_inline_wins(inline: Option<String>) -> bool {
    inline matches Some(h) && h@.len() > 0
}

/// A template lookup is requested: no inline content, non-empty name.
pub open spec fn spec_aux_template_requested(inline: Option<String>, tmpl: Option<String>) -> bool {
    !spec_aux_inline_wins(inline) && (tmpl matches Some(t) && t@.len() > 0)
}

/// Auxiliary resolution fails exactly when the requested template name
/// would escape the template directory.
pub open spec fn spec_aux_fails(inline: Option<String>, tmpl: Option<String>) -> bool {
    &&& spec_aux_template_requested(inline, tmpl)
    &&& (tmpl matches Some(t) && spec_path_escapes(t@))
}

/// The auxiliary input an (inline, template) pair resolves to.
pub open spec fn spec_aux_resolved(
    inline: Option<String>,
    tmpl: Option<String>,
    a: AuxInput,
) -> bool {
    if spec_aux_inline_wins(inline) {
        a matches AuxInput::Inline(s) && (inline matches Some(h) && s@ == h@)
    } else if spec_aux_template_requested(inline, tmpl) {
        a matches AuxInput::Template { name, path } && (tmpl matches Some(t) && name@ == t@
            && path@ == "templates/"@ + t@)
    } else {
        a is Absent
    }
}

/// The plan of one markdown conversion: everything the render needs, fully
/// decided before any file is written or process spawned.
#[derive(Debug)]
pub struct ConvertPlan {
    /// The preprocessed markdown, streamed to the engine's standard input.
    pub content: String,
    /// The composed stylesheet text.
    pub css: String,
    pub engine: PdfEngine,
    /// Structured options still needed at invocation time (table of
    /// contents flags).
    pub options: Option<PdfOptions>,
    pub header: AuxInput,
    pub footer: AuxInput,
    pub target: OutputTarget,
}

/// Plan one markdown conversion: preprocess the content, compose the
/// stylesheet, resolve both auxiliary inputs (header first), pick the
/// engine and decide the output disposition. Fails exactly when an
/// auxiliary template name would escape the template directory.
pub fn convert_plan(req: ConvertRequest, base_css: &str) -> (r: Result<ConvertPlan, AppError>)
    ensures
        r is Err <==> spec_aux_fails(req.header_html, req.header_template) || spec_aux_fails(
            req.footer_html,
            req.footer_template,
        ),
        r matches Err(e) ==> (e matches AppError::BadRequest(m) && m@ == "Invalid template path"@),
        r matches Ok(p) ==> {
            &&& p.content@ == spec_process_censor(req.markdown@)
            &&& p.css@ == spec_build_css(
                base_css@,
                spec_options_css_opt(req.options),
                spec_custom_css(req.css),
            )
            &&& p.engine == spec_engine_choice(req.engine)
            &&& p.options == req.options
            &&& spec_aux_resolved(req.header_html, req.header_template, p.header)
            &&& spec_aux_resolved(req.footer_html, req.footer_template, p.footer)
            &&& spec_output_target(req.client_id, req.pdf_name, p.target)
        },
{
    let ConvertRequest {
        markdown,
        css,
        engine,
        options,
        header_html,
        footer_html,
        header_template,
        footer_template,
        client_id,
        pdf_name,
    } = req;
    let header = match resolve_header_footer(opt_str(&header_html), opt_str(&header_template)) {
        Ok(a) => a,
        Err(e) => {
            return Err(e);
        },
    };
    let footer = match resolve_header_footer(opt_str(&footer_html), opt_str(&footer_template)) {
        Ok(a) => a,
        Err(e) => {
            return Err(e);
        },
    };
    let content = process_censor(markdown.as_str());
    let composed = build_css(base_css, opt_str(&css), options.as_ref());
    let chosen = match engine {
        Some(e) => e,
        None => PdfEngine::Weasyprint,
    };
    let target = output_target(&client_id, &pdf_name);
    Ok(
        ConvertPlan {
            content,
            css: composed,
            engine: chosen,
            options,
            header,
            footer,
            target,
        },
    )
}

/// The plan of one direct HTML render: composed stylesheet and output
/// disposition; the HTML itself passes through unmodified.
#[derive(Debug)]
pub struct HtmlPlan {
    pub html: String,
    pub css: String,
    pub target: OutputTarget,
}

/// Plan one HTML-to-PDF render: the content passes through unmodified, the
/// stylesheet is composed, and the output disposition is decided.
pub fn html_to_pdf_plan(req: HtmlToPdfRequest, base_css: &str) -> (r: HtmlPlan)
    ensures
        r.html == req.html,
        r.css@ == spec_build_css(
            base_css@,
            spec_options_css_opt(req.options),
            spec_custom_css(req.css),
        ),
        spec_output_target(req.client_id, req.pdf_name, r.target),
{
    let HtmlToPdfRequest { html, css, options, client_id, pdf_name } = req;
    let composed = build_css(base_css, opt_str(&css), options.as_ref());
    let target = output_target(&client_id, &pdf_name);
    HtmlPlan { html, css: composed, target }
}

/// Admit template data into the pipeline exactly when it is a JSON object;
/// anything else is a bad request, rejected before any template engine
/// runs.
pub fn render_data_gate(data_is_object: bool) -> (r: Result<(), AppError>)
    ensures
        r is Ok <==> data_is_object,
        !data_is_object ==> (r matches Err(e) && e matches AppError::BadRequest(m) && m@
            == "\"data\" must be a JSON object"@),
{
    if data_is_object {
        Ok(())
    } else {
        Err(AppError::BadRequest(String::from_str("\"data\" must be a JSON object")))
    }
}

/// Plan one template render: reject non-object data before the template
/// engine runs, expand the template, compose the stylesheet and decide the
/// output disposition. Every failure is either that rejection or a template
/// error carrying the engine's message.
pub fn render_plan(req: RenderRequest, base_css: &str) -> (r: Result<HtmlPlan, AppError>)
    ensures
        r matches Ok(p) ==> {
            &&& p.css@ == spec_build_css(
                base_css@,
                spec_options_css_opt(req.options),
                spec_custom_css(req.css),
            )
            &&& spec_output_target(req.client_id, req.pdf_name, p.target)
        },
        r matches Err(e) ==> ((e matches AppError::BadRequest(m) && m@
            == "\"data\" must be a JSON object"@) || e matches AppError::TemplateError(_)),
{
    let RenderRequest { template, data, css, options, client_id, pdf_name } = req;
    let is_obj = data.is_object();
    if let Err(e) = render_data_gate(is_obj) {
        return Err(e);
    }
    let ctx = match context_from_value(&data) {
        Ok(c) => c,
        Err(e) => {
            return Err(AppError::TemplateError(tera_error_message(&e)));
        },
    };
    let html = match tera_one_off(template.as_str(), &ctx) {
        Ok(h) => h,
        Err(e) => {
            return Err(AppError::TemplateError(tera_error_message(&e)));
        },
    };
    let composed = build_css(base_css, opt_str(&css), options.as_ref());
    let target = output_target(&client_id, &pdf_name);
    Ok(HtmlPlan { html, css: composed, target })
}

/// What a preview renders before rasterization: a full markdown render, or
/// HTML handed to the HTML engine directly (given as such, or expanded from
/// a template).
#[derive(Debug)]
pub enum PreviewContent {
    Markdown {
        content: String,
        engine: PdfEngine,
        options: Option<PdfOptions>,
        header: AuxInput,
        footer: AuxInput,
    },
    Html { html: String },
}

/// The plan of one preview: the composed stylesheet and the content to
/// render; the result is always rasterized and streamed, never persisted.
#[derive(Debug)]
pub struct PreviewPlan {
    pub css: String,
    pub content: PreviewContent,
}

/// The markdown content variant is populated.
pub open spec fn spec_preview_markdown_given(req: PreviewRequest) -> bool {
    req.markdown is Some
}

/// The template+data content variant is populated.
pub open spec fn spec_preview_template_given(req: PreviewRequest) -> bool {
    req.template is Some && req.data is Some
}

/// The ready-made HTML content variant is populated.
pub open spec fn spec_preview_html_given(req: PreviewRequest) -> bool {
    req.html is Some
}

/// How many of the three content variants the request populates. Exactly
/// one must be; anything else is a client error.
pub open spec fn spec_preview_mode_count(req: PreviewRequest) -> int {
    (if spec_preview_markdown_given(req) {
        1int
    } else {
        0int
    }) + (if spec_preview_template_given(req) {
        1int
    } else {
        0int
    }) + (if spec_preview_html_given(req) {
        1int
    } else {
        0int
    })
}

/// Plan one preview: the request must populate exactly one of the three
/// content variants — none or more than one is a client error — and that
/// variant's render is planned.
pub fn preview_plan(req: PreviewRequest, base_css: &str) -> (r: Result<PreviewPlan, AppError>)
    ensures
        r matches Ok(p) ==> p.css@ == spec_build_css(
            base_css@,
            spec_options_css_opt(req.options),
            spec_custom_css(req.css),
        ),
        spec_preview_mode_count(req) == 0 ==> (r matches Err(e) && e matches AppError::BadRequest(
            m,
        ) && m@ == "Provide one of: markdown, html, or template+data"@),
        spec_preview_mode_count(req) > 1 ==> (r matches Err(e) && e matches AppError::BadRequest(m)
            && m@ == "Provide exactly one of: markdown, html, or template+data"@),
        spec_preview_mode_count(req) == 1 && spec_preview_markdown_given(req) ==> {
            &&& (r is Err <==> spec_aux_fails(req.header_html, req.header_template)
                || spec_aux_fails(req.footer_html, req.footer_template))
            &&& (r matches Err(e) ==> (e matches AppError::BadRequest(m) && m@
                == "Invalid template path"@))
            &&& (r matches Ok(p) ==> (p.content matches PreviewContent::Markdown {
                content,
                engine,
                options,
                header,
                footer,
            } && {
                &&& (req.markdown matches Some(md) && content@ == spec_process_censor(md@))
                &&& engine == spec_engine_choice(req.engine)
                &&& options == req.options
                &&& spec_aux_resolved(req.header_html, req.header_template, header)
                &&& spec_aux_resolved(req.footer_html, req.footer_template, footer)
            }))
        },
        spec_preview_mode_count(req) == 1 && spec_preview_template_given(req) ==> {
            &&& (r matches Ok(p) ==> p.content is Html)
            &&& (r matches Err(e) ==> ((e matches AppError::BadRequest(m) && m@
                == "\"data\" must be a JSON object"@) || e matches AppError::TemplateError(_)))
        },
        spec_preview_mode_count(req) == 1 && spec_preview_html_given(req) ==> (r matches Ok(p) && (
        p.content matches PreviewContent::Html { html } && (req.html matches Some(h) && html@
            == h@))),
{
    let markdown_given = req.markdown.is_some();
    let template_given = req.template.is_some() && req.data.is_some();
    let html_given = req.html.is_some();
    let mut mode_count: u8 = 0;
    if markdown_given {
        mode_count = mode_count + 1;
    }
    if template_given {
        mode_count = mode_count + 1;
    }
    if html_given {
        mode_count = mode_count + 1;
    }
    proof {
        assert(mode_count as int == spec_preview_mode_count(req));
    }
    if mode_count == 0 {
        return Err(
            AppError::BadRequest(String::from_str("Provide one of: markdown, html, or template+data")),
        );
    }
    if mode_count > 1 {
        return Err(
            AppError::BadRequest(
                String::from_str("Provide exactly one of: markdown, html, or template+data"),
            ),
        );
    }
    let PreviewRequest {
        markdown,
        html,
        template,
        data,
        css,
        engine,
        options,
        header_html,
        footer_html,
        header_template,
        footer_template,
    } = req;
    let composed = build_css(base_css, opt_str(&css), options.as_ref());
    if let Some(md) = &markdown {
        let header = match resolve_header_footer(opt_str(&header_html), opt_str(&header_template)) {
            Ok(a) => a,
            Err(e) => {
                return Err(e);
            },
        };
        let footer = match resolve_header_footer(opt_str(&footer_html), opt_str(&footer_template)) {
            Ok(a) => a,
            Err(e) => {
                return Err(e);
            },
        };
        let content = process_censor(md.as_str());
        let chosen = match engine {
            Some(e) => e,
            None => PdfEngine::Weasyprint,
        };
        return Ok(
            PreviewPlan {
                css: composed,
                content: PreviewContent::Markdown {
                    content,
                    engine: chosen,
                    options,
                    header,
                    footer,
                },
            },
        );
    }
    match (&template, &data) {
        (Some(t), Some(d)) => {
            let is_obj = d.is_object();
            if let Err(e) = render_data_gate(is_obj) {
                return Err(e);
            }
            let ctx = match context_from_value(d) {
                Ok(c) => c,
                Err(e) => {
                    return Err(AppError::TemplateError(tera_error_message(&e)));
                },
            };
            let rendered = match tera_one_off(t.as_str(), &ctx) {
                Ok(h) => h,
                Err(e) => {
                    return Err(AppError::TemplateError(tera_error_message(&e)));
                },
            };
            return Ok(PreviewPlan { css: composed, content: PreviewContent::Html { html: rendered } });
        },
        _ => {},
    }
    if let Some(h) = html {
        return Ok(PreviewPlan { css: composed, content: PreviewContent::Html { html: h } });
    }
    Err(AppError::BadRequest(String::from_str("Provide one of: markdown, html, or template+data")))
}

/// The plan of one merge: the validated source paths in the caller's order,
/// and the output disposition of the combined document.
#[derive(Debug)]
pub struct MergePlan {
    pub sources: Vec<String>,
    pub target: OutputTarget,
}

/// Plan one merge: fewer than two inputs are rejected before any reference
/// is resolved and before any external tool could run; otherwise every
/// reference is resolved through validated path resolution, keeping the
/// caller's order, and the combined document is persisted exactly when both
/// a namespace and a name were supplied, streamed otherwise.
pub fn merge_plan(req: MergeRequest) -> (r: Result<MergePlan, AppError>)
    ensures
        r is Ok <==> (req.pdfs@.len() >= 2 && forall|k: int|
            0 <= k < req.pdfs@.len() ==> !spec_ref_escapes(req.pdfs@[k]@)),
        req.pdfs@.len() < 2 ==> (r matches Err(e) && e matches AppError::BadRequest(m) && m@
            == "At least 2 PDFs are required for merging"@),
        req.pdfs@.len() >= 2 ==> (r matches Err(e) ==> (e matches AppError::BadRequest(m) && m@
            == "Invalid PDF path"@)),
        r matches Ok(p) ==> {
            &&& p.sources@.len() == req.pdfs@.len()
            &&& forall|k: int|
                0 <= k < p.sources@.len() ==> p.sources@[k]@ == spec_artifact_root() + "/"@
                    + spec_ref_relative(req.pdfs@[k]@)
            &&& spec_output_target(req.client_id, req.pdf_name, p.target)
        },
{
    let n = req.pdfs.len();
    if n < 2 {
        return Err(AppError::BadRequest(String::from_str("At least 2 PDFs are required for merging")));
    }
    let mut sources: Vec<String> = Vec::new();
    let mut i: usize = 0;
    while i < n
        invariant
            n == req.pdfs@.len(),
            2 <= n,
            i <= n,
            sources@.len() == i,
            forall|k: int| 0 <= k < i ==> !spec_ref_escapes(req.pdfs@[k]@),
            forall|k: int|
                0 <= k < i ==> sources@[k]@ == spec_artifact_root() + "/"@ + spec_ref_relative(
                    req.pdfs@[k]@,
                ),
        decreases n - i,
    {
        match resolve_pdf_path(req.pdfs[i].as_str()) {
            Ok(p) => {
                sources.push(p);
            },
            Err(e) => {
                return Err(e);
            },
        }
        i = i + 1;
    }
    let target = output_target(&req.client_id, &req.pdf_name);
    Ok(MergePlan { sources, target })
}

/// The text before the opacity value in the overlay page.
pub open spec fn spec_overlay_head() -> Seq<char> {
    "<!DOCTYPE html>\n<html>\n<head>\n<style>\n@page { size: A4; margin: 0; }\nbody {\n  margin: 0;\n  display: flex;\n  align-items: center;\n  justify-content: center;\n  height: 100vh;\n  width: 100vw;\n}\n.watermark {\n  font-size: 80pt;\n  color: rgba(0, 0, 0, "@
}

/// The text between the opacity value and the first angle value.
pub open spec fn spec_overlay_mid_rotate() -> Seq<char> {
    ");\n  transform: rotate("@
}

/// The text between the first and the second angle value.
pub open spec fn spec_overlay_mid_translate() -> Seq<char> {
    "deg);\n  white-space: nowrap;\n  position: fixed;\n  top: 50%;\n  left: 50%;\n  transform: translate(-50%, -50%) rotate("@
}

/// The text between the second angle value and the watermark text.
pub open spec fn spec_overlay_mid_text() -> Seq<char> {
    "deg);\n}\n</style>\n</head>\n<body>\n<div class=\"watermark\">"@
}

/// The text after the watermark text.
pub open spec fn spec_overlay_tail() -> Seq<char> {
    "</div>\n</body>\n</html>"@
}

/// The single-page overlay document: centered, rotated text at the chosen
/// opacity and angle, interpolated verbatim (the text is trusted).
pub open spec fn spec_overlay_html(text: Seq<char>, opacity: Seq<char>, angle: Seq<char>) -> Seq<
    char,
> {
    spec_overlay_head() + opacity + spec_overlay_mid_rotate() + angle + spec_overlay_mid_translate()
        + angle + spec_overlay_mid_text() + text + spec_overlay_tail()
}

/// The caller-chosen opacity, or the 0.06 default.
pub open spec fn spec_opacity_choice(o: Option<String>) -> Seq<char> {
    match o {
        Some(s) => s@,
        None => "0.06"@,
    }
}

/// The caller-chosen angle, or the -45 degree default.
pub open spec fn spec_angle_choice(a: Option<String>) -> Seq<char> {
    match a {
        Some(s) => s@,
        None => "-45"@,
    }
}

/// The plan of one watermark operation: the validated source path, the
/// overlay page to render, and the output disposition. The overlay is
/// rendered by the HTML engine and then stamped onto every page of the
/// source.
#[derive(Debug)]
pub struct WatermarkPlan {
    pub source: String,
    pub overlay_html: String,
    pub target: OutputTarget,
}

/// Plan one watermark operation: resolve the target reference through
/// validated path resolution and compose the overlay page.
pub fn watermark_plan(req: WatermarkRequest) -> (r: Result<WatermarkPlan, AppError>)
    ensures
        r is Err <==> spec_ref_escapes(req.pdf@),
        r matches Err(e) ==> (e matches AppError::BadRequest(m) && m@ == "Invalid PDF path"@),
        r matches Ok(p) ==> {
            &&& p.source@ == spec_artifact_root() + "/"@ + spec_ref_relative(req.pdf@)
            &&& p.overlay_html@ == spec_overlay_html(
                req.text@,
                spec_opacity_choice(req.opacity),
                spec_angle_choice(req.angle),
            )
            &&& spec_output_target(req.client_id, req.pdf_name, p.target)
        },
{
    let WatermarkRequest { pdf, text, opacity, angle, client_id, pdf_name } = req;
    let source = match resolve_pdf_path(pdf.as_str()) {
        Ok(p) => p,
        Err(e) => {
            return Err(e);
        },
    };
    let opacity_text = match &opacity {
        Some(s) => s.as_str(),
        None => "0.06",
    };
    let angle_text = match &angle {
        Some(s) => s.as_str(),
        None => "-45",
    };
    let mut overlay = String::from_str(
        "<!DOCTYPE html>\n<html>\n<head>\n<style>\n@page { size: A4; margin: 0; }\nbody {\n  margin: 0;\n  display: flex;\n  align-items: center;\n  justify-content: center;\n  height: 100vh;\n  width: 100vw;\n}\n.watermark {\n  font-size: 80pt;\n  color: rgba(0, 0, 0, ",
    );
    overlay.append(opacity_text);
    overlay.append(");\n  transform: rotate(");
    overlay.append(angle_text);
    overlay.append(
        "deg);\n  white-space: nowrap;\n  position: fixed;\n  top: 50%;\n  left: 50%;\n  transform: translate(-50%, -50%) rotate(",
    );
    overlay.append(angle_text);
    overlay.append("deg);\n}\n</style>\n</head>\n<body>\n<div class=\"watermark\">");
    overlay.append(text.as_str());
    overlay.append("</div>\n</body>\n</html>");
    let target = output_target(&client_id, &pdf_name);
    proof {
        assert(overlay@ =~= spec_overlay_html(
            text@,
            spec_opacity_choice(opacity),
            spec_angle_choice(angle),
        ));
    }
    Ok(WatermarkPlan { source, overlay_html: overlay, target })
}

/// The plan of one password-protection operation: the validated source
/// path, the password applied identically as user and owner password, and
/// the output disposition.
#[derive(Debug)]
pub struct ProtectPlan {
    pub source: String,
    pub password: String,
    pub target: OutputTarget,
}

/// Plan one password-protection operation: resolve the target reference
/// through validated path resolution and carry the password to the
/// encryption invocation.
pub fn protect_plan(req: ProtectRequest) -> (r: Result<ProtectPlan, AppError>)
    ensures
        r is Err <==> spec_ref_escapes(req.pdf@),
        r matches Err(e) ==> (e matches AppError::BadRequest(m) && m@ == "Invalid PDF path"@),
        r matches Ok(p) ==> {
            &&& p.source@ == spec_artifact_root() + "/"@ + spec_ref_relative(req.pdf@)
            &&& p.password == req.password
            &&& spec_output_target(req.client_id, req.pdf_name, p.target)
        },
{
    let ProtectRequest { pdf, password, client_id, pdf_name } = req;
    let source = match resolve_pdf_path(pdf.as_str()) {
        Ok(p) => p,
        Err(e) => {
            return Err(e);
        },
    };
    let target = output_target(&client_id, &pdf_name);
    Ok(ProtectPlan { source, password, target })
}

} // verus!
