//! Auxiliary input resolution: a header or footer is given either as inline
//! content or as a named template file, and inline content always wins.

use vstd::prelude::*;
use crate::paths::{path_escapes, spec_path_escapes};
use crate::types::AppError;

verus! {

/// The resolved auxiliary input of a render: nothing, inline content used
/// verbatim, or a template file under the fixed template directory.
#[derive(Clone, Debug, PartialEq)]
pub enum AuxInput {
    Absent,
    Inline(String),
    Template { name: String, path: String },
}

/// Non-empty inline content takes priority over any template name.
pub open spec fn spec_inline_wins(inline: Option<&str>) -> bool {
    inline matches Some(h) && h@.len() > 0
}

/// A template is requested when no inline content wins and a non-empty
/// template name is given.
pub open spec fn spec_template_requested(inline: Option<&str>, template: Option<&str>) -> bool {
    !spec_inline_wins(inline) && (template matches Some(t) && t@.len() > 0)
}

/// Resolve a header or footer from an optional inline fragment and an
/// optional template name. Non-empty inline content always wins and the
/// template is never touched; otherwise a non-empty template name resolves
/// under the template directory, and a name whose traversal segments would
/// escape that directory is rejected rather than silently contained. With
/// both inputs empty or absent there is no auxiliary input and the caller
/// omits the corresponding engine argument entirely.
///
/// Whether the resolved template file exists is the caller's check; a
/// missing file is the not-found failure of [`template_not_found_error`].
pub fn resolve_header_footer(inline_html: Option<&str>, template_name: Option<&str>) -> (r: Result<
    AuxInput,
    AppError,
>)
    ensures
        inline_html matches Some(h) ==> (h@.len() > 0 ==> (r matches Ok(a) && a matches
            AuxInput::Inline(s) && s@ == h@)),
        template_name matches Some(t) ==> (spec_template_requested(inline_html, template_name)
            && !spec_path_escapes(t@) ==> (r matches Ok(a) && a matches AuxInput::Template {
            name,
            path,
        } && name@ == t@ && path@ == "templates/"@ + t@)),
        template_name matches Some(t) ==> (spec_template_requested(inline_html, template_name)
            && spec_path_escapes(t@) ==> (r matches Err(e) && e matches AppError::BadRequest(m)
            && m@ == "Invalid template path"@)),
        !spec_inline_wins(inline_html) && !spec_template_requested(inline_html, template_name)
            ==> (r matches Ok(a) && a is Absent),
{
    if let Some(h) = inline_html {
        if !h.is_empty() {
            return Ok(AuxInput::Inline(String::from_str(h)));
        }
    }
    if let Some(t) = template_name {
        if !t.is_empty() {
            if path_escapes(t) {
                return Err(AppError::BadRequest(String::from_str("Invalid template path")));
            }
            let mut path = String::from_str("templates/");
            path.append(t);
            return Ok(AuxInput::Template { name: String::from_str(t), path });
        }
    }
    Ok(AuxInput::Absent)
}

/// The failure reported when a requested template file does not exist,
/// naming the requested filename.
pub fn template_not_found_error(name: &str) -> (r: AppError)
    ensures
        r matches AppError::NotFound(m) && m@ == "Template file not found: "@ + name@,
{
    let mut m = String::from_str("Template file not found: ");
    m.append(name);
    AppError::NotFound(m)
}

} // verus!
