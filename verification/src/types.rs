//! Data model of the pipeline: engine and paper enums, rendering options,
//! request and response shapes, and the error taxonomy.

use vstd::prelude::*;

verus! {

/// The external rendering engine a request selects. Exactly one engine is
/// used per render and the selection never changes mid-pipeline.
#[derive(Clone, Copy, Debug, PartialEq, Eq, Structural)]
pub enum PdfEngine {
    Weasyprint,
    Wkhtmltopdf,
    Pdflatex,
}

/// The command name under which the engine is invoked.
pub open spec fn spec_engine_name(e: PdfEngine) -> Seq<char> {
    match e {
        PdfEngine::Weasyprint => "weasyprint"@,
        PdfEngine::Wkhtmltopdf => "wkhtmltopdf"@,
        PdfEngine::Pdflatex => "pdflatex"@,
    }
}

impl PdfEngine {
    /// The external command this engine variant stands for; the one place
    /// that maps the closed enum to a program name.
    pub fn command_name(&self) -> (r: &'static str)
        ensures
            r@ == spec_engine_name(*self),
    {
        match self {
            PdfEngine::Weasyprint => "weasyprint",
            PdfEngine::Wkhtmltopdf => "wkhtmltopdf",
            PdfEngine::Pdflatex => "pdflatex",
        }
    }
}

impl Default for PdfEngine {
    /// The default engine is weasyprint.
    fn default() -> (r: Self)
        ensures
            r == PdfEngine::Weasyprint,
    {
        PdfEngine::Weasyprint
    }
}

#[derive(Clone, Copy, Debug, PartialEq, Eq, Structural)]
pub enum PaperSize {
    A4,
    A3,
    Letter,
}

/// The name of the paper size as it appears in a CSS `size:` declaration.
pub open spec fn spec_paper_name(p: PaperSize) -> Seq<char> {
    match p {
        PaperSize::A4 => "A4"@,
        PaperSize::A3 => "A3"@,
        PaperSize::Letter => "letter"@,
    }
}

impl PaperSize {
    /// The CSS spelling of this paper size.
    pub fn css_name(&self) -> (r: &'static str)
        ensures
            r@ == spec_paper_name(*self),
    {
        match self {
            PaperSize::A4 => "A4",
            PaperSize::A3 => "A3",
            PaperSize::Letter => "letter",
        }
    }
}

impl Default for PaperSize {
    fn default() -> (r: Self)
        ensures
            r == PaperSize::A4,
    {
        PaperSize::A4
    }
}

#[derive(Clone, Copy, Debug, PartialEq, Eq, Structural)]
pub enum Orientation {
    Portrait,
    Landscape,
}

impl Default for Orientation {
    fn default() -> (r: Self)
        ensures
            r == Orientation::Portrait,
    {
        Orientation::Portrait
    }
}

/// Four independent optional edge lengths; an absent edge means the fixed
/// default of 2cm, never zero.
#[derive(Clone, Debug)]
pub struct Margins {
    pub top: Option<String>,
    pub bottom: Option<String>,
    pub left: Option<String>,
    pub right: Option<String>,
}

/// Structured rendering options. Every field is optional; absence means
/// "inherit the engine default".
#[derive(Clone, Debug)]
pub struct PdfOptions {
    pub paper_size: Option<PaperSize>,
    pub orientation: Option<Orientation>,
    pub margins: Option<Margins>,
    pub page_numbers: Option<bool>,
    pub page_number_format: Option<String>,
    pub toc: Option<bool>,
    pub toc_depth: Option<u8>,
    pub watermark: Option<String>,
}

impl Default for PdfOptions {
    /// No option set: every derived rule is inherited from the engine.
    fn default() -> (r: Self)
        ensures
            r.paper_size is None,
            r.orientation is None,
            r.margins is None,
            r.page_numbers is None,
            r.page_number_format is None,
            r.toc is None,
            r.toc_depth is None,
            r.watermark is None,
    {
        PdfOptions {
            paper_size: None,
            orientation: None,
            margins: None,
            page_numbers: None,
            page_number_format: None,
            toc: None,
            toc_depth: None,
            watermark: None,
        }
    }
}

/// The markdown conversion request.
#[derive(Clone, Debug)]
pub struct ConvertRequest {
    pub markdown: String,
    pub css: Option<String>,
    pub engine: Option<PdfEngine>,
    pub options: Option<PdfOptions>,
    pub header_html: Option<String>,
    pub footer_html: Option<String>,
    pub header_template: Option<String>,
    pub footer_template: Option<String>,
    pub client_id: Option<String>,
    pub pdf_name: Option<String>,
}

/// The legacy form-encoded request: same semantics as [`ConvertRequest`]
/// restricted to markdown input.
#[derive(Clone, Debug)]
pub struct ConvertForm {
    pub markdown: String,
    pub css: Option<String>,
    pub engine: Option<PdfEngine>,
    pub header_template: Option<String>,
    pub footer_template: Option<String>,
    pub client_id: Option<String>,
    pub pdf_name: Option<String>,
}

impl ConvertForm {
    /// The legacy endpoint is one configuration of the same pipeline: a form
    /// carries no structured options and no inline header or footer.
    pub fn into_request(self) -> (r: ConvertRequest)
        ensures
            r.markdown == self.markdown,
            r.css == self.css,
            r.engine == self.engine,
            r.options is None,
            r.header_html is None,
            r.footer_html is None,
            r.header_template == self.header_template,
            r.footer_template == self.footer_template,
            r.client_id == self.client_id,
            r.pdf_name == self.pdf_name,
    {
        ConvertRequest {
            markdown: self.markdown,
            css: self.css,
            engine: self.engine,
            options: None,
            header_html: None,
            footer_html: None,
            header_template: self.header_template,
            footer_template: self.footer_template,
            client_id: self.client_id,
            pdf_name: self.pdf_name,
        }
    }
}

/// The template rendering request: the template text is expanded against
/// `data`, which must be a JSON object.
#[derive(Debug)]
pub struct RenderRequest {
    pub template: String,
    pub data: serde_json::Value,
    pub css: Option<String>,
    pub options: Option<PdfOptions>,
    pub client_id: Option<String>,
    pub pdf_name: Option<String>,
}

/// The preview request: one of markdown, HTML, or template+data, rendered
/// and rasterized to an image of the first page.
#[derive(Debug)]
pub struct PreviewRequest {
    pub markdown: Option<String>,
    pub html: Option<String>,
    pub template: Option<String>,
    pub data: Option<serde_json::Value>,
    pub css: Option<String>,
    pub engine: Option<PdfEngine>,
    pub options: Option<PdfOptions>,
    pub header_html: Option<String>,
    pub footer_html: Option<String>,
    pub header_template: Option<String>,
    pub footer_template: Option<String>,
}

/// The HTML-to-PDF request: content is already HTML, no preprocessing.
#[derive(Clone, Debug)]
pub struct HtmlToPdfRequest {
    pub html: String,
    pub css: Option<String>,
    pub options: Option<PdfOptions>,
    pub client_id: Option<String>,
    pub pdf_name: Option<String>,
}

/// The merge request: an ordered list of stored-artifact references.
#[derive(Clone, Debug)]
pub struct MergeRequest {
    pub pdfs: Vec<String>,
    pub client_id: Option<String>,
    pub pdf_name: Option<String>,
}

/// The watermark request. Opacity and angle are decimal texts interpolated
/// verbatim into the overlay stylesheet (defaults 0.06 and -45).
#[derive(Clone, Debug)]
pub struct WatermarkRequest {
    pub pdf: String,
    pub text: String,
    pub opacity: Option<String>,
    pub angle: Option<String>,
    pub client_id: Option<String>,
    pub pdf_name: Option<String>,
}

/// The password-protection request.
#[derive(Clone, Debug)]
pub struct ProtectRequest {
    pub pdf: String,
    pub password: String,
    pub client_id: Option<String>,
    pub pdf_name: Option<String>,
}

/// Success-with-persistence response: the stable download reference.
#[derive(Clone, Debug)]
pub struct ConvertResponse {
    pub download_url: String,
}

/// Service liveness report.
#[derive(Clone, Debug)]
pub struct HealthResponse {
    pub status: String,
    pub version: String,
    pub engines: Vec<String>,
}

/// The error envelope returned to clients.
#[derive(Clone, Debug)]
pub struct ErrorResponse {
    pub error: String,
    pub details: String,
}

/// The failure taxonomy of the pipeline. Every failed request maps to
/// exactly one of these; none is retried.
#[derive(Clone, Debug, PartialEq)]
pub enum AppError {
    /// An external tool exited non-zero; carries its captured standard error
    /// verbatim.
    ProcessFailed { message: String, stderr: String },
    /// A filesystem or process-spawn failure unrelated to the tool's own
    /// logic.
    Io(String),
    /// A malformed request: missing required fields, too few merge inputs,
    /// non-object template data, or a path-escape attempt.
    BadRequest(String),
    /// A missing template file or stored artifact.
    NotFound(String),
    /// The template engine rejected the template or its data.
    TemplateError(String),
}

/// The HTTP status each error kind maps to.
pub open spec fn spec_status_code(e: AppError) -> u16 {
    match e {
        AppError::ProcessFailed { .. } => 500,
        AppError::Io(_) => 500,
        AppError::BadRequest(_) => 400,
        AppError::NotFound(_) => 404,
        AppError::TemplateError(_) => 400,
    }
}

/// The short error kind of the envelope.
pub open spec fn spec_error_label(e: AppError) -> Seq<char> {
    match e {
        AppError::ProcessFailed { message, .. } => message@,
        AppError::Io(_) => "IO error"@,
        AppError::BadRequest(_) => "Bad request"@,
        AppError::NotFound(_) => "Not found"@,
        AppError::TemplateError(_) => "Template error"@,
    }
}

/// The text an error carries: captured stderr for a failed process, the
/// stored message otherwise.
pub open spec fn spec_error_details(e: AppError) -> Seq<char> {
    match e {
        AppError::ProcessFailed { stderr, .. } => stderr@,
        AppError::Io(m) => m@,
        AppError::BadRequest(m) => m@,
        AppError::NotFound(m) => m@,
        AppError::TemplateError(m) => m@,
    }
}

/// The details text shown to the client: the carried text, except for an
/// I/O failure, whose internals are never leaked — its details are one
/// fixed generic message.
pub open spec fn spec_response_details(e: AppError) -> Seq<char> {
    match e {
        AppError::Io(_) => "An internal error occurred"@,
        _ => spec_error_details(e),
    }
}

impl AppError {
    pub fn status_code(&self) -> (r: u16)
        ensures
            r == spec_status_code(*self),
    {
        match self {
            AppError::ProcessFailed { .. } => 500,
            AppError::Io(_) => 500,
            AppError::BadRequest(_) => 400,
            AppError::NotFound(_) => 404,
            AppError::TemplateError(_) => 400,
        }
    }

    pub fn error_label(&self) -> (r: String)
        ensures
            r@ == spec_error_label(*self),
    {
        match self {
            AppError::ProcessFailed { message, .. } => message.clone(),
            AppError::Io(_) => String::from_str("IO error"),
            AppError::BadRequest(_) => String::from_str("Bad request"),
            AppError::NotFound(_) => String::from_str("Not found"),
            AppError::TemplateError(_) => String::from_str("Template error"),
        }
    }

    /// The text this error carries, for the holder's own use (a log line);
    /// the client-facing envelope comes from [`Self::to_response`].
    pub fn details(&self) -> (r: String)
        ensures
            r@ == spec_error_details(*self),
    {
        match self {
            AppError::ProcessFailed { stderr, .. } => stderr.clone(),
            AppError::Io(m) => m.clone(),
            AppError::BadRequest(m) => m.clone(),
            AppError::NotFound(m) => m.clone(),
            AppError::TemplateError(m) => m.clone(),
        }
    }

    /// The error envelope sent to the client: `{error, details}`. An I/O
    /// failure answers with a fixed generic details text; what it carried
    /// internally is not leaked.
    pub fn to_response(&self) -> (r: ErrorResponse)
        ensures
            r.error@ == spec_error_label(*self),
            r.details@ == spec_response_details(*self),
    {
        let details = match self {
            AppError::Io(_) => String::from_str("An internal error occurred"),
            _ => self.details(),
        };
        ErrorResponse { error: self.error_label(), details }
    }
}

/// The service health report: static engine inventory and crate version.
pub fn health() -> (r: HealthResponse)
    ensures
        r.status@ == "ok"@,
        r.version@ == "0.1.0"@,
        r.engines@.len() == 3,
        r.engines@[0]@ == spec_engine_name(PdfEngine::Weasyprint),
        r.engines@[1]@ == spec_engine_name(PdfEngine::Wkhtmltopdf),
        r.engines@[2]@ == spec_engine_name(PdfEngine::Pdflatex),
{
    let mut engines: Vec<String> = Vec::new();
    engines.push(String::from_str(PdfEngine::Weasyprint.command_name()));
    engines.push(String::from_str(PdfEngine::Wkhtmltopdf.command_name()));
    engines.push(String::from_str(PdfEngine::Pdflatex.command_name()));
    HealthResponse {
        status: String::from_str("ok"),
        version: String::from_str("0.1.0"),
        engines,
    }
}

} // verus!
