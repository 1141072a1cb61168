//! Invocation contracts of the external tools: for each engine or
//! post-processing tool, the exact, ordered argument list it is started
//! with. The caller spawns the processes; these functions decide what they
//! are told.

use vstd::prelude::*;
use crate::text::{spec_decimal, u8_to_decimal};
use crate::types::{PdfEngine, PdfOptions, spec_engine_name};

verus! {

/// The markdown renderer's command name.
pub fn pandoc_command() -> (r: &'static str)
    ensures
        r@ == "pandoc"@,
{
    "pandoc"
}

/// The HTML renderer's command name.
pub fn weasyprint_command() -> (r: &'static str)
    ensures
        r@ == "weasyprint"@,
{
    "weasyprint"
}

/// The PDF transformer's command name (encryption and overlay).
pub fn qpdf_command() -> (r: &'static str)
    ensures
        r@ == "qpdf"@,
{
    "qpdf"
}

/// The PDF concatenation tool's command name.
pub fn pdfunite_command() -> (r: &'static str)
    ensures
        r@ == "pdfunite"@,
{
    "pdfunite"
}

/// The rasterizer's command name.
pub fn pdftoppm_command() -> (r: &'static str)
    ensures
        r@ == "pdftoppm"@,
{
    "pdftoppm"
}

/// The table-of-contents arguments: a TOC-enable argument when the flag is
/// set, and a depth-limited variant when a depth is given.
pub open spec fn spec_toc_args(options: Option<&PdfOptions>) -> Seq<Seq<char>> {
    match options {
        Some(o) => if o.toc matches Some(true) {
            seq!["--toc"@] + (match o.toc_depth {
                Some(d) => seq!["--toc-depth="@ + spec_decimal(d as int)],
                None => Seq::<Seq<char>>::empty(),
            })
        } else {
            Seq::<Seq<char>>::empty()
        },
        None => Seq::<Seq<char>>::empty(),
    }
}

/// The full pandoc argument list: fixed input/output format arguments, the
/// output file, the selected engine, the composed stylesheet, then the
/// optional TOC arguments, then the header include and the footer include.
/// Content is streamed to standard input, never passed as a file.
pub open spec fn spec_pandoc_args(
    pdf_path: Seq<char>,
    engine: PdfEngine,
    css_path: Seq<char>,
    options: Option<&PdfOptions>,
    header_path: Option<&str>,
    footer_path: Option<&str>,
) -> Seq<Seq<char>> {
    seq![
        "--from=markdown+raw_html"@,
        "--standalone"@,
        "--to=html5"@,
        "--variable=geometry:margin=1.5cm"@,
        "--variable=papersize=a4"@,
        "--output="@ + pdf_path,
        "--pdf-engine="@ + spec_engine_name(engine),
        "--css="@ + css_path,
    ] + spec_toc_args(options) + (match header_path {
        Some(h) => seq!["--include-in-header="@ + h@],
        None => Seq::<Seq<char>>::empty(),
    }) + (match footer_path {
        Some(f) => seq!["--include-after-body="@ + f@],
        None => Seq::<Seq<char>>::empty(),
    })
}

fn push_joined(args: &mut Vec<String>, prefix: &str, value: &str)
    ensures
        final(args)@.len() == old(args)@.len() + 1,
        forall|j: int| 0 <= j < old(args)@.len() ==> final(args)@[j] == old(args)@[j],
        final(args)@[old(args)@.len() as int]@ == prefix@ + value@,
{
    let mut s = String::from_str(prefix);
    s.append(value);
    args.push(s);
}

/// Compose the pandoc invocation for one markdown render.
pub fn pandoc_args(
    pdf_path: &str,
    engine: &PdfEngine,
    css_path: &str,
    options: Option<&PdfOptions>,
    header_path: Option<&str>,
    footer_path: Option<&str>,
) -> (r: Vec<String>)
    ensures
        r@.len() == spec_pandoc_args(
            pdf_path@,
            *engine,
            css_path@,
            options,
            header_path,
            footer_path,
        ).len(),
        forall|j: int|
            0 <= j < r@.len() ==> r@[j]@ == spec_pandoc_args(
                pdf_path@,
                *engine,
                css_path@,
                options,
                header_path,
                footer_path,
            )[j],
{
    let ghost gspec = spec_pandoc_args(
        pdf_path@,
        *engine,
        css_path@,
        options,
        header_path,
        footer_path,
    );
    let mut r: Vec<String> = Vec::new();
    r.push(String::from_str("--from=markdown+raw_html"));
    r.push(String::from_str("--standalone"));
    r.push(String::from_str("--to=html5"));
    r.push(String::from_str("--variable=geometry:margin=1.5cm"));
    r.push(String::from_str("--variable=papersize=a4"));
    push_joined(&mut r, "--output=", pdf_path);
    push_joined(&mut r, "--pdf-engine=", engine.command_name());
    push_joined(&mut r, "--css=", css_path);
    if let Some(o) = options {
        if let Some(true) = o.toc {
            r.push(String::from_str("--toc"));
            if let Some(d) = o.toc_depth {
                let depth = u8_to_decimal(d);
                push_joined(&mut r, "--toc-depth=", depth.as_str());
            }
        }
    }
    if let Some(h) = header_path {
        push_joined(&mut r, "--include-in-header=", h);
    }
    if let Some(f) = footer_path {
        push_joined(&mut r, "--include-after-body=", f);
    }
    proof {
        assert forall|j: int| 0 <= j < r@.len() implies r@[j]@ == gspec[j] by {
            assert(gspec.len() == r@.len());
        }
    }
    r
}

/// The weasyprint argument list: input HTML file, output PDF file, then the
/// stylesheet if one is attached.
pub open spec fn spec_weasyprint_args(
    html_path: Seq<char>,
    pdf_path: Seq<char>,
    css_path: Option<&str>,
) -> Seq<Seq<char>> {
    seq![html_path, pdf_path] + (match css_path {
        Some(c) => seq!["--stylesheet"@, c@],
        None => Seq::<Seq<char>>::empty(),
    })
}

/// Compose the weasyprint invocation for one HTML render.
pub fn weasyprint_args(html_path: &str, pdf_path: &str, css_path: Option<&str>) -> (r: Vec<String>)
    ensures
        r@.len() == spec_weasyprint_args(html_path@, pdf_path@, css_path).len(),
        forall|j: int|
            0 <= j < r@.len() ==> r@[j]@ == spec_weasyprint_args(html_path@, pdf_path@, css_path)[j],
{
    let mut r: Vec<String> = Vec::new();
    r.push(String::from_str(html_path));
    r.push(String::from_str(pdf_path));
    if let Some(c) = css_path {
        r.push(String::from_str("--stylesheet"));
        r.push(String::from_str(c));
    }
    r
}

/// The encryption invocation: the caller-supplied password is used
/// identically as user and owner password, at the fixed 256-bit strength.
pub open spec fn spec_encrypt_args(
    password: Seq<char>,
    source: Seq<char>,
    output: Seq<char>,
) -> Seq<Seq<char>> {
    seq!["--encrypt"@, password, password, "256"@, "--"@, source, output]
}

/// Compose the qpdf invocation that password-protects one PDF.
pub fn qpdf_encrypt_args(password: &str, source: &str, output: &str) -> (r: Vec<String>)
    ensures
        r@.len() == spec_encrypt_args(password@, source@, output@).len(),
        forall|j: int|
            0 <= j < r@.len() ==> r@[j]@ == spec_encrypt_args(password@, source@, output@)[j],
{
    let mut r: Vec<String> = Vec::new();
    r.push(String::from_str("--encrypt"));
    r.push(String::from_str(password));
    r.push(String::from_str(password));
    r.push(String::from_str("256"));
    r.push(String::from_str("--"));
    r.push(String::from_str(source));
    r.push(String::from_str(output));
    r
}

/// The overlay invocation: the overlay page is stamped onto every page of
/// the source document.
pub open spec fn spec_overlay_args(
    source: Seq<char>,
    overlay: Seq<char>,
    output: Seq<char>,
) -> Seq<Seq<char>> {
    seq![source, "--overlay"@, overlay, "--"@, output]
}

/// Compose the qpdf invocation that overlays the watermark page onto the
/// source PDF.
pub fn qpdf_overlay_args(source: &str, overlay: &str, output: &str) -> (r: Vec<String>)
    ensures
        r@.len() == spec_overlay_args(source@, overlay@, output@).len(),
        forall|j: int|
            0 <= j < r@.len() ==> r@[j]@ == spec_overlay_args(source@, overlay@, output@)[j],
{
    let mut r: Vec<String> = Vec::new();
    r.push(String::from_str(source));
    r.push(String::from_str("--overlay"));
    r.push(String::from_str(overlay));
    r.push(String::from_str("--"));
    r.push(String::from_str(output));
    r
}

/// The concatenation invocation: every input in the caller's order,
/// followed by the output file.
pub fn pdfunite_args(inputs: &Vec<String>, output: &str) -> (r: Vec<String>)
    ensures
        r@.len() == inputs@.len() + 1,
        forall|j: int| 0 <= j < inputs@.len() ==> r@[j]@ == inputs@[j]@,
        r@[inputs@.len() as int]@ == output@,
{
    let mut r: Vec<String> = Vec::new();
    let n = inputs.len();
    let mut i: usize = 0;
    while i < n
        invariant
            n == inputs@.len(),
            i <= n,
            r@.len() == i,
            forall|j: int| 0 <= j < i ==> r@[j]@ == inputs@[j]@,
        decreases n - i,
    {
        r.push(inputs[i].clone());
        i = i + 1;
    }
    r.push(String::from_str(output));
    r
}

/// The rasterizer invocation: only the first page, at the fixed 150 dpi
/// resolution, as PNG, written under the given prefix.
pub open spec fn spec_rasterize_args(pdf_path: Seq<char>, prefix: Seq<char>) -> Seq<Seq<char>> {
    seq!["-png"@, "-f"@, "1"@, "-l"@, "1"@, "-r"@, "150"@, pdf_path, prefix]
}

/// Compose the pdftoppm invocation that rasterizes the first page of a PDF.
pub fn pdftoppm_args(pdf_path: &str, prefix: &str) -> (r: Vec<String>)
    ensures
        r@.len() == spec_rasterize_args(pdf_path@, prefix@).len(),
        forall|j: int| 0 <= j < r@.len() ==> r@[j]@ == spec_rasterize_args(pdf_path@, prefix@)[j],
{
    let mut r: Vec<String> = Vec::new();
    r.push(String::from_str("-png"));
    r.push(String::from_str("-f"));
    r.push(String::from_str("1"));
    r.push(String::from_str("-l"));
    r.push(String::from_str("1"));
    r.push(String::from_str("-r"));
    r.push(String::from_str("150"));
    r.push(String::from_str(pdf_path));
    r.push(String::from_str(prefix));
    r
}

/// The file names the rasterizer may write the first page under: some
/// versions number the page `-1`, others `-01`. The caller reads whichever
/// exists.
pub fn rasterized_page_names(prefix: &str) -> (r: (String, String))
    ensures
        r.0@ == prefix@ + "-1.png"@,
        r.1@ == prefix@ + "-01.png"@,
{
    let mut a = String::from_str(prefix);
    a.append("-1.png");
    let mut b = String::from_str(prefix);
    b.append("-01.png");
    (a, b)
}

/// Pick the rasterized first page among the candidate names, in order; if
/// the tool wrote neither, the rasterization is reported as a process
/// failure with no captured error text.
pub fn pick_rasterized_page(
    first: String,
    first_exists: bool,
    second: String,
    second_exists: bool,
) -> (r: Result<String, crate::types::AppError>)
    ensures
        first_exists ==> (r matches Ok(p) && p == first),
        !first_exists && second_exists ==> (r matches Ok(p) && p == second),
        !first_exists && !second_exists ==> (r matches Err(e) && e matches
            crate::types::AppError::ProcessFailed { message, stderr } && message@
            == "PNG file not found after pdftoppm"@ && stderr@.len() == 0),
{
    if first_exists {
        Ok(first)
    } else if second_exists {
        Ok(second)
    } else {
        Err(
            crate::types::AppError::ProcessFailed {
                message: String::from_str("PNG file not found after pdftoppm"),
                stderr: String::new(),
            },
        )
    }
}

} // verus!
