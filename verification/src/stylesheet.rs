//! Stylesheet composition: one CSS text built as base stylesheet, then
//! options-derived rules, then the caller's override, in that order, so that
//! later segments can override earlier ones.

use vstd::prelude::*;
use crate::types::{Orientation, PdfOptions, spec_paper_name};

verus! {

/// The fixed default edge length substituted for an unset margin.
pub open spec fn spec_margin_value(m: Option<String>) -> Seq<char> {
    match m {
        Some(s) => s@,
        None => "2cm"@,
    }
}

/// The `size:` declaration. Paper size and orientation jointly produce one
/// declaration; landscape alone defaults the paper to A4.
pub open spec fn spec_size_rule(o: PdfOptions) -> Seq<char> {
    match o.paper_size {
        Some(p) => "size: "@ + spec_paper_name(p) + (
        if o.orientation matches Some(Orientation::Landscape) {
            " landscape"@
        } else {
            Seq::<char>::empty()
        }) + ";"@,
        None => if o.orientation matches Some(Orientation::Landscape) {
            "size: A4 landscape;"@
        } else {
            Seq::<char>::empty()
        },
    }
}

/// The `margin:` declaration. If any edge is set, all four edges are
/// emitted, unset ones at the 2cm default, in CSS order top-right-bottom-left.
pub open spec fn spec_margin_rule(o: PdfOptions) -> Seq<char> {
    match o.margins {
        Some(m) => "margin: "@ + spec_margin_value(m.top) + " "@ + spec_margin_value(m.right)
            + " "@ + spec_margin_value(m.bottom) + " "@ + spec_margin_value(m.left) + ";"@,
        None => Seq::<char>::empty(),
    }
}

/// The bottom-center running element for page numbers; its content
/// expression defaults to a page-counter reference.
pub open spec fn spec_page_number_rule(o: PdfOptions) -> Seq<char> {
    if o.page_numbers matches Some(true) {
        "@bottom-center { content: "@ + (match o.page_number_format {
            Some(f) => f@,
            None => "counter(page)"@,
        }) + "; font-size: 10pt; color: #666; }"@
    } else {
        Seq::<char>::empty()
    }
}

/// A rule line inside the page block: indented and newline-terminated, or
/// nothing for an absent rule.
pub open spec fn spec_rule_line(r: Seq<char>) -> Seq<char> {
    if r.len() == 0 {
        r
    } else {
        "  "@ + r + "\n"@
    }
}

/// The page-box block. All page-level rules, the running footer included,
/// are nested inside this one block; if no rule is present the block is
/// absent entirely, not emitted empty.
pub open spec fn spec_page_block(o: PdfOptions) -> Seq<char> {
    if spec_size_rule(o).len() == 0 && spec_margin_rule(o).len() == 0 && spec_page_number_rule(
        o,
    ).len() == 0 {
        Seq::<char>::empty()
    } else {
        "@page {\n"@ + spec_rule_line(spec_size_rule(o)) + spec_rule_line(spec_margin_rule(o))
            + spec_rule_line(spec_page_number_rule(o)) + "}\n"@
    }
}

/// The text before the watermark content in the overlay rule.
pub open spec fn spec_watermark_prefix() -> Seq<char> {
    "body::after {\n  content: \""@
}

/// The text after the watermark content in the overlay rule: a fixed
/// full-page overlay, rotated 45 degrees, low-opacity, non-interactive.
pub open spec fn spec_watermark_suffix() -> Seq<char> {
    "\";\n  position: fixed;\n  top: 50%;\n  left: 50%;\n  transform: translate(-50%, -50%) rotate(-45deg);\n  font-size: 80pt;\n  color: rgba(0, 0, 0, 0.06);\n  z-index: 9999;\n  pointer-events: none;\n  white-space: nowrap;\n}\n"@
}

/// The watermark overlay rule, with the watermark text verbatim (no
/// escaping is performed; the text is trusted).
pub open spec fn spec_watermark_rule(o: PdfOptions) -> Seq<char> {
    match o.watermark {
        Some(w) => spec_watermark_prefix() + w@ + spec_watermark_suffix(),
        None => Seq::<char>::empty(),
    }
}

/// The whole options-derived CSS segment: the page block followed by the
/// watermark overlay rule.
pub open spec fn spec_options_css(o: PdfOptions) -> Seq<char> {
    spec_page_block(o) + spec_watermark_rule(o)
}

fn size_rule(o: &PdfOptions) -> (r: String)
    ensures
        r@ == spec_size_rule(*o),
{
    let mut r = String::new();
    match &o.paper_size {
        Some(p) => {
            r.append("size: ");
            r.append(p.css_name());
            if let Some(Orientation::Landscape) = o.orientation {
                r.append(" landscape");
            }
            r.append(";");
            proof {
                assert(r@ =~= spec_size_rule(*o));
            }
        },
        None => {
            if let Some(Orientation::Landscape) = o.orientation {
                r.append("size: A4 landscape;");
            }
        },
    }
    r
}

fn margin_rule(o: &PdfOptions) -> (r: String)
    ensures
        r@ == spec_margin_rule(*o),
{
    let mut r = String::new();
    match &o.margins {
        Some(m) => {
            r.append("margin: ");
            r.append(match &m.top {
                Some(t) => t.as_str(),
                None => "2cm",
            });
            r.append(" ");
            r.append(match &m.right {
                Some(t) => t.as_str(),
                None => "2cm",
            });
            r.append(" ");
            r.append(match &m.bottom {
                Some(t) => t.as_str(),
                None => "2cm",
            });
            r.append(" ");
            r.append(match &m.left {
                Some(t) => t.as_str(),
                None => "2cm",
            });
            r.append(";");
            proof {
                assert(r@ =~= spec_margin_rule(*o));
            }
        },
        None => {},
    }
    r
}

fn page_number_rule(o: &PdfOptions) -> (r: String)
    ensures
        r@ == spec_page_number_rule(*o),
{
    let mut r = String::new();
    if let Some(true) = o.page_numbers {
        r.append("@bottom-center { content: ");
        r.append(match &o.page_number_format {
            Some(f) => f.as_str(),
            None => "counter(page)",
        });
        r.append("; font-size: 10pt; color: #666; }");
        proof {
            assert(r@ =~= spec_page_number_rule(*o));
        }
    }
    r
}

fn append_rule_line(css: &mut String, rule: &String)
    ensures
        final(css)@ == old(css)@ + spec_rule_line(rule@),
{
    if !rule.as_str().is_empty() {
        css.append("  ");
        css.append(rule.as_str());
        css.append("\n");
        proof {
            assert(final(css)@ =~= old(css)@ + spec_rule_line(rule@));
        }
    } else {
        proof {
            assert(final(css)@ =~= old(css)@ + spec_rule_line(rule@));
        }
    }
}

/// Convert structured rendering options into their CSS rules: one page-box
/// block holding every page-level rule, then the watermark overlay rule.
pub fn options_to_css(opts: &PdfOptions) -> (r: String)
    ensures
        r@ == spec_options_css(*opts),
{
    let size = size_rule(opts);
    let margin = margin_rule(opts);
    let page_numbers = page_number_rule(opts);

    let mut css = String::new();
    if !(size.as_str().is_empty() && margin.as_str().is_empty() && page_numbers.as_str().is_empty())
    {
        css.append("@page {\n");
        append_rule_line(&mut css, &size);
        append_rule_line(&mut css, &margin);
        append_rule_line(&mut css, &page_numbers);
        css.append("}\n");
        proof {
            assert(css@ =~= spec_page_block(*opts));
        }
    }
    match &opts.watermark {
        Some(w) => {
            css.append("body::after {\n  content: \"");
            css.append(w.as_str());
            css.append(
                "\";\n  position: fixed;\n  top: 50%;\n  left: 50%;\n  transform: translate(-50%, -50%) rotate(-45deg);\n  font-size: 80pt;\n  color: rgba(0, 0, 0, 0.06);\n  z-index: 9999;\n  pointer-events: none;\n  white-space: nowrap;\n}\n",
            );
        },
        None => {},
    }
    proof {
        assert(css@ =~= spec_options_css(*opts));
    }
    css
}

/// A stylesheet segment appended after the base: preceded by one newline,
/// or nothing if the segment is empty.
pub open spec fn spec_css_segment(s: Seq<char>) -> Seq<char> {
    if s.len() == 0 {
        s
    } else {
        "\n"@ + s
    }
}

/// The composed stylesheet: base text, then options-derived rules, then the
/// caller's raw override, each later segment able to override the earlier.
pub open spec fn spec_build_css(
    base: Seq<char>,
    options_css: Seq<char>,
    custom: Seq<char>,
) -> Seq<char> {
    base + spec_css_segment(options_css) + spec_css_segment(custom)
}

/// Compose the full stylesheet from the base text, the structured options
/// and the caller's raw CSS override.
pub fn build_css(base: &str, custom_css: Option<&str>, options: Option<&PdfOptions>) -> (r: String)
    ensures
        r@ == spec_build_css(
            base@,
            match options {
                Some(o) => spec_options_css(*o),
                None => Seq::<char>::empty(),
            },
            match custom_css {
                Some(c) => c@,
                None => Seq::<char>::empty(),
            },
        ),
{
    let mut r = String::from_str(base);
    match options {
        Some(o) => {
            let derived = options_to_css(o);
            if !derived.as_str().is_empty() {
                r.append("\n");
                r.append(derived.as_str());
            }
        },
        None => {},
    }
    match custom_css {
        Some(c) => {
            if !c.is_empty() {
                r.append("\n");
                r.append(c);
            }
        },
        None => {},
    }
    proof {
        assert(r@ =~= spec_build_css(
            base@,
            match options {
                Some(o) => spec_options_css(*o),
                None => Seq::<char>::empty(),
            },
            match custom_css {
                Some(c) => c@,
                None => Seq::<char>::empty(),
            },
        ));
    }
    r
}

/// With no options and no override, the composed stylesheet is exactly the
/// base stylesheet, unchanged.
pub proof fn lemma_build_css_base_only(base: Seq<char>)
    ensures
        spec_build_css(base, Seq::<char>::empty(), Seq::<char>::empty()) == base,
{
    assert(spec_build_css(base, Seq::<char>::empty(), Seq::<char>::empty()) =~= base);
}

} // verus!
