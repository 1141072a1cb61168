//! Stored-artifact references and path validation. A reference is a
//! namespace+name pair exposed as a `/download/...` path; resolving one joins
//! it under the fixed artifact root and rejects every reference whose
//! traversal segments would escape that root.

use vstd::prelude::*;
use vstd::string::*;
use crate::text::{chars_match_at, spec_ends_with, spec_split, split_slash, str_ends_with, str_eq};
use crate::types::AppError;

verus! {

/// Walking the segments left to right from `depth` directories below the
/// root: true when some `..` segment climbs above the root. Empty and `.`
/// segments do not move; every other segment descends one level.
pub open spec fn spec_escapes_from(segs: Seq<Seq<char>>, depth: int) -> bool
    decreases segs.len(),
{
    if segs.len() == 0 {
        false
    } else if segs[0] == ".."@ {
        depth <= 0 || spec_escapes_from(segs.skip(1), depth - 1)
    } else if segs[0] == "."@ || segs[0].len() == 0 {
        spec_escapes_from(segs.skip(1), depth)
    } else {
        spec_escapes_from(segs.skip(1), depth + 1)
    }
}

/// A relative path escapes when its `/`-separated segments climb above
/// their starting directory at any point.
pub open spec fn spec_path_escapes(s: Seq<char>) -> bool {
    spec_escapes_from(spec_split(s, '/'), 0)
}

/// Whether the `/`-separated segments of `s` escape their starting
/// directory, for any depth of traversal attempted.
pub fn path_escapes(s: &str) -> (r: bool)
    ensures
        r == spec_path_escapes(s@),
{
    proof {
        reveal_strlit("..");
        reveal_strlit(".");
    }
    let segs = split_slash(s);
    let ghost ss = spec_split(s@, '/');
    let n = segs.len();
    let mut depth: usize = 0;
    let mut j: usize = 0;
    proof {
        assert(ss.skip(0) =~= ss);
    }
    while j < n
        invariant
            ss == spec_split(s@, '/'),
            n == segs@.len(),
            n == ss.len(),
            forall|k: int| 0 <= k < n ==> segs@[k]@ == ss[k],
            j <= n,
            depth <= j,
            spec_escapes_from(ss, 0) == spec_escapes_from(ss.skip(j as int), depth as int),
        decreases n - j,
    {
        let ghost rest = ss.skip(j as int);
        proof {
            assert(rest[0] == ss[j as int]);
            assert(rest.skip(1) =~= ss.skip(j as int + 1));
        }
        let seg = &segs[j];
        if str_eq(seg.as_str(), "..") {
            if depth == 0 {
                proof {
                    assert(rest[0] == ".."@);
                    assert(spec_escapes_from(rest, 0));
                }
                return true;
            }
            depth = depth - 1;
        } else if str_eq(seg.as_str(), ".") || seg.as_str().is_empty() {
        } else {
            depth = depth + 1;
        }
        j = j + 1;
    }
    proof {
        assert(ss.skip(n as int) =~= Seq::<Seq<char>>::empty());
    }
    false
}

/// A reference with its leading slashes removed.
pub open spec fn spec_strip_slashes(s: Seq<char>) -> Seq<char>
    decreases s.len(),
{
    if s.len() > 0 && s[0] == '/' {
        spec_strip_slashes(s.skip(1))
    } else {
        s
    }
}

/// A reference with one leading `download/` prefix removed, if present.
pub open spec fn spec_strip_download(s: Seq<char>) -> Seq<char> {
    if s.len() >= 9 && s.take(9) == "download/"@ {
        s.skip(9)
    } else {
        s
    }
}

/// The namespace/name part of a download reference: the reference without
/// its leading slashes and without the `download/` prefix.
pub open spec fn spec_ref_relative(url: Seq<char>) -> Seq<char> {
    spec_strip_download(spec_strip_slashes(url))
}

/// A reference whose relative part escapes the artifact root.
pub open spec fn spec_ref_escapes(url: Seq<char>) -> bool {
    spec_path_escapes(spec_ref_relative(url))
}

/// The artifact root every stored PDF lives under.
pub open spec fn spec_artifact_root() -> Seq<char> {
    "public/pdf"@
}

/// Resolve a `/download/...` reference to the stored file's path under the
/// artifact root. A reference whose traversal segments would escape the
/// root is rejected as a bad request, whatever depth it attempts; every
/// other reference resolves to the root joined with its relative part.
/// The caller must still canonicalize the returned path and hold the result
/// against the canonicalized root, which guards symlink escapes.
pub fn resolve_pdf_path(url: &str) -> (r: Result<String, AppError>)
    ensures
        spec_ref_escapes(url@) <==> r is Err,
        r matches Err(e) ==> (e matches AppError::BadRequest(m) && m@ == "Invalid PDF path"@),
        r matches Ok(p) ==> p@ == spec_artifact_root() + "/"@ + spec_ref_relative(url@),
{
    proof {
        reveal_strlit("download/");
    }
    let n = url.unicode_len();
    let mut i: usize = 0;
    proof {
        assert(url@.skip(0) =~= url@);
    }
    while i < n && url.get_char(i) == '/'
        invariant
            n == url@.len(),
            i <= n,
            spec_strip_slashes(url@) == spec_strip_slashes(url@.skip(i as int)),
        decreases n - i,
    {
        proof {
            assert(url@.skip(i as int).skip(1) =~= url@.skip(i as int + 1));
        }
        i = i + 1;
    }
    proof {
        assert(spec_strip_slashes(url@.skip(i as int)) == url@.skip(i as int));
    }
    if n - i >= 9 && chars_match_at(url, "download/", i) {
        proof {
            assert(url@.skip(i as int).take(9) =~= url@.subrange(i as int, i as int + 9));
            assert(spec_strip_download(url@.skip(i as int)) =~= url@.skip(i as int + 9));
        }
        i = i + 9;
    } else {
        proof {
            if url@.skip(i as int).len() >= 9 {
                assert(url@.skip(i as int).take(9) =~= url@.subrange(i as int, i as int + 9));
            }
            assert(spec_strip_download(url@.skip(i as int)) == url@.skip(i as int));
        }
    }
    let rel = url.substring_char(i, n);
    proof {
        assert(rel@ == spec_ref_relative(url@));
    }
    if path_escapes(rel) {
        Err(AppError::BadRequest(String::from_str("Invalid PDF path")))
    } else {
        let mut p = String::from_str("public/pdf/");
        p.append(rel);
        proof {
            reveal_strlit("public/pdf");
            reveal_strlit("public/pdf/");
            reveal_strlit("/");
            assert(p@ =~= spec_artifact_root() + "/"@ + spec_ref_relative(url@));
        }
        Ok(p)
    }
}

/// `path` is a strict descendant of `root`: it continues `root` past a
/// path separator.
pub open spec fn spec_within_root(path: Seq<char>, root: Seq<char>) -> bool {
    path.len() > root.len() && path.take(root.len() as int) == root && path[root.len() as int]
        == '/'
}

/// Whether a canonical path lies strictly inside a canonical root
/// directory. Run on canonicalized paths this also rejects symlink escapes,
/// which no textual check can see.
pub fn path_within_root(path: &str, root: &str) -> (r: bool)
    ensures
        r == spec_within_root(path@, root@),
{
    let n = path.unicode_len();
    let m = root.unicode_len();
    if n <= m {
        return false;
    }
    let prefix_ok = chars_match_at(path, root, 0);
    proof {
        assert(path@.subrange(0, m as int) =~= path@.take(m as int));
    }
    if !prefix_ok {
        return false;
    }
    path.get_char(m) == '/'
}

/// A stored artifact's name always carries the canonical extension.
pub open spec fn spec_normalize_name(name: Seq<char>) -> Seq<char> {
    if spec_ends_with(name, ".pdf"@) {
        name
    } else {
        name + ".pdf"@
    }
}

/// Normalize a caller-chosen artifact name to end with the canonical
/// extension.
pub fn normalize_pdf_name(name: &str) -> (r: String)
    ensures
        r@ == spec_normalize_name(name@),
{
    if str_ends_with(name, ".pdf") {
        String::from_str(name)
    } else {
        let mut r = String::from_str(name);
        r.append(".pdf");
        r
    }
}

/// Where a produced PDF is persisted and how it is addressed afterwards:
/// the namespace directory, the file path inside it, and the stable
/// download reference returned to the client.
#[derive(Clone, Debug, PartialEq)]
pub struct PersistTarget {
    pub client_id: String,
    pub file_name: String,
    pub dir: String,
    pub path: String,
    pub url: String,
}

/// `t` is the persistence slot for namespace `client` and caller-chosen
/// name `name`: the file goes to `<root>/<namespace>/<normalized name>` and
/// is addressed as `/download/<namespace>/<normalized name>`.
pub open spec fn spec_is_target_for(t: PersistTarget, client: Seq<char>, name: Seq<char>) -> bool {
    &&& t.client_id@ == client
    &&& t.file_name@ == spec_normalize_name(name)
    &&& t.dir@ == spec_artifact_root() + "/"@ + client
    &&& t.path@ == t.dir@ + "/"@ + t.file_name@
    &&& t.url@ == "/download/"@ + client + "/"@ + t.file_name@
}

/// The persistence slot for a produced PDF: `<root>/<namespace>/<name>`,
/// with the name normalized to the canonical extension, and the download
/// reference `/download/<namespace>/<name>`.
pub fn persist_target(client_id: &str, pdf_name: &str) -> (r: PersistTarget)
    ensures
        spec_is_target_for(r, client_id@, pdf_name@),
{
    let file_name = normalize_pdf_name(pdf_name);
    let mut dir = String::from_str("public/pdf/");
    dir.append(client_id);
    let mut path = dir.clone();
    path.append("/");
    path.append(file_name.as_str());
    let mut url = String::from_str("/download/");
    url.append(client_id);
    url.append("/");
    url.append(file_name.as_str());
    proof {
        reveal_strlit("public/pdf");
        reveal_strlit("public/pdf/");
        reveal_strlit("/");
        assert(dir@ =~= spec_artifact_root() + "/"@ + client_id@);
        assert(path@ =~= dir@ + "/"@ + file_name@);
        assert(url@ =~= "/download/"@ + client_id@ + "/"@ + file_name@);
    }
    PersistTarget { client_id: String::from_str(client_id), file_name, dir, path, url }
}

/// The filename carried by the download response's attachment header:
/// the stored name, normalized to the canonical extension.
pub fn download_file_name(pdf_name: &str) -> (r: String)
    ensures
        r@ == spec_normalize_name(pdf_name@),
{
    normalize_pdf_name(pdf_name)
}

/// Locate a stored artifact for download. The file is looked up under the
/// artifact root by the raw namespace and name — a segment that would
/// escape the root is rejected — while the attachment filename carries the
/// normalized name. Returns the lookup path and that filename.
pub fn download_lookup(client_id: &str, pdf_name: &str) -> (r: Result<(String, String), AppError>)
    ensures
        spec_path_escapes(client_id@) || spec_path_escapes(pdf_name@) ==> (r matches Err(e)
            && e matches AppError::BadRequest(m) && m@ == "Invalid PDF path"@),
        !spec_path_escapes(client_id@) && !spec_path_escapes(pdf_name@) ==> (r matches Ok(p) && p.0@
            == spec_artifact_root() + "/"@ + client_id@ + "/"@ + pdf_name@ && p.1@
            == spec_normalize_name(pdf_name@)),
{
    if path_escapes(client_id) || path_escapes(pdf_name) {
        return Err(AppError::BadRequest(String::from_str("Invalid PDF path")));
    }
    let mut path = String::from_str("public/pdf/");
    path.append(client_id);
    path.append("/");
    path.append(pdf_name);
    proof {
        reveal_strlit("public/pdf");
        reveal_strlit("public/pdf/");
        reveal_strlit("/");
        assert(path@ =~= spec_artifact_root() + "/"@ + client_id@ + "/"@ + pdf_name@);
    }
    Ok((path, normalize_pdf_name(pdf_name)))
}

} // verus!
