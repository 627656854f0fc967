//! The static asset rules: which paths under the asset prefix may be
//! resolved against the asset root at all, and which content type a
//! file is served with. Reading the file is the transport layer's
//! work; it hands the bytes back and they are passed through
//! verbatim.

use vstd::prelude::*;

use crate::http::{Body, HttpResponse};
use crate::text::{chars_eq_str, split_chars, string_of, views_of};

verus! {

/// Whether one path segment is safe to resolve below the asset root:
/// non-empty, not a directory reference (`.` or `..`), and free of
/// the separator and drive characters another filesystem could read
/// as an escape.
pub open spec fn spec_segment_safe(seg: Seq<char>) -> bool {
    &&& seg.len() > 0
    &&& seg != "."@
    &&& seg != ".."@
    &&& !seg.contains('\\')
    &&& !seg.contains(':')
}

/// Whether a whole asset path is safe: at least one segment (a file,
/// not the root itself) and every segment safe. A safe path can only
/// name something at or below the asset root.
pub open spec fn spec_path_safe(segs: Seq<Seq<char>>) -> bool {
    &&& segs.len() > 0
    &&& forall|i: int| 0 <= i < segs.len() ==> spec_segment_safe(#[trigger] segs[i])
}

/// Check one segment.
fn segment_safe(seg: &Vec<char>) -> (r: bool)
    ensures
        r == spec_segment_safe(seg@),
{
    if seg.len() == 0 {
        return false;
    }
    if chars_eq_str(seg, ".") || chars_eq_str(seg, "..") {
        return false;
    }
    let mut i: usize = 0;
    while i < seg.len()
        invariant
            i <= seg@.len(),
            forall|j: int| 0 <= j < i ==> seg@[j] != '\\' && seg@[j] != ':',
        decreases seg@.len() - i,
    {
        if seg[i] == '\\' || seg[i] == ':' {
            assert(seg@.contains(seg@[i as int]));
            return false;
        }
        i = i + 1;
    }
    assert(!seg@.contains('\\'));
    assert(!seg@.contains(':'));
    true
}

/// Check a whole asset path.
pub fn path_safe(segs: &Vec<Vec<char>>) -> (r: bool)
    ensures
        r == spec_path_safe(views_of(segs@)),
{
    if segs.len() == 0 {
        return false;
    }
    let mut i: usize = 0;
    while i < segs.len()
        invariant
            i <= segs@.len(),
            forall|j: int| 0 <= j < i ==> spec_segment_safe(#[trigger] views_of(segs@)[j]),
        decreases segs@.len() - i,
    {
        if !segment_safe(&segs[i]) {
            assert(!spec_segment_safe(views_of(segs@)[i as int]));
            return false;
        }
        i = i + 1;
    }
    true
}

/// The extension of a file name: what follows the last `.`, or empty
/// when the name has no `.` at all.
pub open spec fn spec_extension_of(name: Seq<char>) -> Seq<char> {
    let pieces = crate::text::spec_split(name, '.');
    if pieces.len() > 1 {
        pieces.last()
    } else {
        Seq::empty()
    }
}

/// The content type served for a file extension; unknown extensions
/// fall back to the octet-stream type.
pub open spec fn spec_mime_of(ext: Seq<char>) -> Seq<char> {
    if ext == "html"@ || ext == "htm"@ {
        "text/html; charset=utf-8"@
    } else if ext == "css"@ {
        "text/css"@
    } else if ext == "js"@ {
        "application/javascript"@
    } else if ext == "json"@ {
        "application/json"@
    } else if ext == "png"@ {
        "image/png"@
    } else if ext == "jpg"@ || ext == "jpeg"@ {
        "image/jpeg"@
    } else if ext == "gif"@ {
        "image/gif"@
    } else if ext == "svg"@ {
        "image/svg+xml"@
    } else if ext == "ico"@ {
        "image/x-icon"@
    } else if ext == "txt"@ {
        "text/plain; charset=utf-8"@
    } else {
        "application/octet-stream"@
    }
}

/// Compute the extension of a file name.
pub fn extension_of(name: &Vec<char>) -> (r: Vec<char>)
    ensures
        r@ == spec_extension_of(name@),
{
    let pieces = split_chars(name, '.');
    if pieces.len() > 1 {
        let last = pieces.len() - 1;
        assert(views_of(pieces@).last() == pieces@[last as int]@);
        pieces[last].clone()
    } else {
        let r: Vec<char> = Vec::new();
        r
    }
}

/// Compute the content type for a file extension.
pub fn mime_of(ext: &Vec<char>) -> (r: String)
    ensures
        r@ == spec_mime_of(ext@),
{
    let name: &str = if chars_eq_str(ext, "html") || chars_eq_str(ext, "htm") {
        "text/html; charset=utf-8"
    } else if chars_eq_str(ext, "css") {
        "text/css"
    } else if chars_eq_str(ext, "js") {
        "application/javascript"
    } else if chars_eq_str(ext, "json") {
        "application/json"
    } else if chars_eq_str(ext, "png") {
        "image/png"
    } else if chars_eq_str(ext, "jpg") || chars_eq_str(ext, "jpeg") {
        "image/jpeg"
    } else if chars_eq_str(ext, "gif") {
        "image/gif"
    } else if chars_eq_str(ext, "svg") {
        "image/svg+xml"
    } else if chars_eq_str(ext, "ico") {
        "image/x-icon"
    } else if chars_eq_str(ext, "txt") {
        "text/plain; charset=utf-8"
    } else {
        "application/octet-stream"
    };
    let cs = crate::text::chars_of(name);
    string_of(&cs)
}

/// A resolved asset request: the safe path below the asset root, as
/// plain strings ready to be joined by the transport layer, and the
/// content type the file will be served with.
pub struct AssetRequest {
    pub segments: Vec<String>,
    pub content_type: String,
}

/// The views of a vector of strings, element by element.
pub open spec fn string_views(v: Seq<String>) -> Seq<Seq<char>> {
    Seq::new(v.len(), |i: int| v[i]@)
}

/// Resolve an asset path (the segments after the asset prefix):
/// `Some` with the segments passed through unchanged and the content
/// type of the final segment's extension, exactly when the path is
/// safe; `None` when it is unsafe, and the file must never be read.
pub fn resolve_asset(segs: &Vec<Vec<char>>) -> (r: Option<AssetRequest>)
    ensures
        r is Some <==> spec_path_safe(views_of(segs@)),
        r matches Some(a) ==> string_views(a.segments@) == views_of(segs@) && a.content_type@
            == spec_mime_of(spec_extension_of(views_of(segs@).last())),
{
    if !path_safe(segs) {
        return None;
    }
    let mut out: Vec<String> = Vec::new();
    assert(string_views(out@) =~= views_of(segs@).take(0));
    let mut i: usize = 0;
    while i < segs.len()
        invariant
            i <= segs@.len(),
            string_views(out@) == views_of(segs@).take(i as int),
        decreases segs@.len() - i,
    {
        let ghost prev = out@;
        let s = string_of(&segs[i]);
        assert(s@ == views_of(segs@)[i as int]);
        out.push(s);
        proof {
            assert(string_views(prev).len() == i);
            assert(prev.len() == i);
            assert(out@ == prev.push(s));
            assert(out@.len() == i + 1);
            assert(out@[i as int] == s);
            assert(string_views(out@).len() == i + 1);
            assert(string_views(out@)[i as int] == views_of(segs@)[i as int]);
            assert(forall|k: int| 0 <= k < i ==> out@[k] == prev[k]);
            assert(forall|k: int|
                0 <= k < i ==> #[trigger] string_views(out@)[k] == string_views(prev)[k]);
            assert(string_views(out@) =~= views_of(segs@).take(i + 1 as int));
        }
        i = i + 1;
    }
    assert(views_of(segs@).take(segs@.len() as int) =~= views_of(segs@));
    let last = segs.len() - 1;
    let ext = extension_of(&segs[last]);
    assert(segs@[last as int]@ == views_of(segs@).last());
    let ct = mime_of(&ext);
    Some(AssetRequest { segments: out, content_type: ct })
}

/// Wrap the outcome of reading a resolved asset: the file's bytes are
/// served verbatim (byte-identical) with the resolved content type and
/// status 200; a file the root does not hold is "not found". Headers
/// are the cross-origin headers granted before routing.
pub fn asset_response(
    content_type: String,
    headers: Vec<(String, String)>,
    data: Option<Vec<u8>>,
) -> (resp: HttpResponse)
    ensures
        resp.headers == headers,
        match data {
            Option::Some(bytes) => resp.status == 200 && resp.content_type == content_type && (
            resp.body matches Body::Bytes(b) && b@ == bytes@),
            Option::None => resp.status == 404 && resp.content_type@ == "text/plain"@ && (
            resp.body matches Body::Text(t) && t@ == "not found"@),
        },
{
    match data {
        Option::Some(bytes) => HttpResponse {
            status: 200,
            content_type,
            headers,
            body: Body::Bytes(bytes),
        },
        Option::None => {
            let mut r = crate::response::not_found();
            r.headers = headers;
            r
        },
    }
}

} // verus!
