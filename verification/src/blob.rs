//! Blob rendering: classify a blob as text or one of the displayable binary
//! kinds, build the inline media markup that points at the raw endpoint, and
//! wrap highlighted text lines with stable per-line anchors.
use crate::text;
use vstd::prelude::*;

verus! {

/// Relies on http_types::Mime::from_extension: a fixed table from file
/// extension to MIME type, stated here in full. The result pairs the type
/// ("text", "image", ...) with the essence ("text/css", "image/svg+xml").
#[verifier::external_body]
pub fn mime_from_extension(ext: &str) -> (r: Option<(String, String)>)
    ensures
        ext@ == "html"@ ==> r is Some && r->Some_0.0@ == "text"@ && r->Some_0.1@ == "text/html"@,
        (ext@ == "js"@ || ext@ == "mjs"@ || ext@ == "jsonp"@) ==> r is Some && r->Some_0.0@
            == "application"@ && r->Some_0.1@ == "application/javascript"@,
        ext@ == "json"@ ==> r is Some && r->Some_0.0@ == "application"@ && r->Some_0.1@
            == "application/json"@,
        ext@ == "css"@ ==> r is Some && r->Some_0.0@ == "text"@ && r->Some_0.1@ == "text/css"@,
        ext@ == "svg"@ ==> r is Some && r->Some_0.0@ == "image"@ && r->Some_0.1@
            == "image/svg+xml"@,
        ext@ == "xml"@ ==> r is Some && r->Some_0.0@ == "application"@ && r->Some_0.1@
            == "application/xml"@,
        (ext@ != "html"@ && ext@ != "js"@ && ext@ != "mjs"@ && ext@ != "jsonp"@ && ext@ != "json"@
            && ext@ != "css"@ && ext@ != "svg"@ && ext@ != "xml"@) ==> r is None,
{
    http_types::Mime::from_extension(ext).map(|m| {
        (m.basetype().to_string(), m.essence().to_string())
    })
}

/// How a blob is shown.
#[derive(Clone, Copy, Debug, PartialEq, Eq, Structural)]
pub enum BlobRender {
    Text,
    Image,
    Audio,
    Video,
    BinaryPlaceholder,
}

/// Decides the render strategy: text is highlighted; binary content is shown
/// inline only when its MIME type names an image, audio, or video, and is
/// otherwise replaced by a placeholder. Binary content is never highlighted.
pub fn blob_render_mode(is_binary: bool, basetype: Option<&String>) -> (r: BlobRender)
    ensures
        !is_binary ==> r is Text,
        is_binary ==> match basetype {
            Some(b) => {
                &&& (r is Image <==> b@ == "image"@)
                &&& (r is Audio <==> b@ != "image"@ && b@ == "audio"@)
                &&& (r is Video <==> b@ != "image"@ && b@ != "audio"@ && b@ == "video"@)
                &&& (r is BinaryPlaceholder <==> b@ != "image"@ && b@ != "audio"@ && b@
                    != "video"@)
            },
            None => r is BinaryPlaceholder,
        },
{
    if !is_binary {
        return BlobRender::Text;
    }
    match basetype {
        Some(b) => {
            if text::str_eq(b.as_str(), "image") {
                BlobRender::Image
            } else if text::str_eq(b.as_str(), "audio") {
                BlobRender::Audio
            } else if text::str_eq(b.as_str(), "video") {
                BlobRender::Video
            } else {
                BlobRender::BinaryPlaceholder
            }
        },
        None => BlobRender::BinaryPlaceholder,
    }
}

/// The raw endpoint below the repository page for a blob at `path` under
/// revision `refspec`.
pub open spec fn spec_raw_url(repo: Seq<char>, refspec: Seq<char>, path: Seq<char>) -> Seq<char> {
    "/"@ + repo + "/tree/"@ + refspec + "/raw/"@ + path
}

fn raw_url(repo: &str, refspec: &str, path: &str) -> (r: String)
    ensures
        r@ == spec_raw_url(repo@, refspec@, path@),
{
    let mut out = "/".to_owned();
    out.append(repo);
    out.append("/tree/");
    out.append(refspec);
    out.append("/raw/");
    out.append(path);
    out
}

/// The inline markup for a displayable binary blob: an image tag, or a media
/// tag with a fallback sentence, each pointing at the raw endpoint.
pub fn media_html(kind: BlobRender, repo: &str, refspec: &str, path: &str) -> (r: String)
    requires
        kind is Image || kind is Audio || kind is Video,
    ensures
        kind is Image ==> r@ == "<img src=\""@ + spec_raw_url(repo@, refspec@, path@) + "\" />"@,
        kind is Audio ==> r@ == "<audio src=\""@ + spec_raw_url(repo@, refspec@, path@)
            + "\" controls>Your browser does not have support for playing this audio file.</audio>"@,
        kind is Video ==> r@ == "<video src=\""@ + spec_raw_url(repo@, refspec@, path@)
            + "\" controls>Your browser does not have support for playing this video file.</video>"@,
{
    let url = raw_url(repo, refspec, path);
    match kind {
        BlobRender::Image => {
            let mut out = "<img src=\"".to_owned();
            out.append(url.as_str());
            out.append("\" />");
            out
        },
        BlobRender::Audio => {
            let mut out = "<audio src=\"".to_owned();
            out.append(url.as_str());
            out.append(
                "\" controls>Your browser does not have support for playing this audio file.</audio>",
            );
            out
        },
        _ => {
            let mut out = "<video src=\"".to_owned();
            out.append(url.as_str());
            out.append(
                "\" controls>Your browser does not have support for playing this video file.</video>",
            );
            out
        },
    }
}

/// One numbered line anchor: a link that both names and targets line `n`.
pub open spec fn spec_line_anchor(prefix: Seq<char>, n: nat) -> Seq<char> {
    "<a href='"@ + prefix + "#L"@ + text::dec_digits(n) + "' id='L"@ + text::dec_digits(n)
        + "' class='line'>"@ + text::dec_digits(n) + "</a>"@
}

/// The numbered body from line index `i` on; line numbers start at one.
pub open spec fn spec_numbered_from(lines: Seq<Seq<char>>, prefix: Seq<char>, i: int) -> Seq<char>
    decreases lines.len() - i,
{
    if i < 0 || i >= lines.len() {
        Seq::empty()
    } else {
        spec_line_anchor(prefix, (i + 1) as nat) + lines[i] + seq!['\n'] + spec_numbered_from(
            lines,
            prefix,
            i + 1,
        )
    }
}

/// A highlighted text blob wrapped line by line with stable anchors, inside
/// a preformatted block. `prefix` is the permalink of the blob itself and
/// must embed the resolved commit id, so anchors survive branch movement.
pub open spec fn spec_numbered_lines(lines: Seq<Seq<char>>, prefix: Seq<char>) -> Seq<char> {
    "<pre>\n"@ + spec_numbered_from(lines, prefix, 0) + "</pre>\n"@
}

pub fn number_lines(lines: &Vec<String>, prefix: &str) -> (r: String)
    ensures
        r@ == spec_numbered_lines(lines.deep_view(), prefix@),
{
    let ghost lv = lines.deep_view();
    proof {
        assert(lv.len() == lines@.len());
        assert(forall|l: int| 0 <= l < lines@.len() ==> lv[l] == lines@[l]@);
    }
    let n = lines.len();
    let mut out = "<pre>\n".to_owned();
    let mut i: usize = 0;
    proof {
        assert(out@ + spec_numbered_from(lv, prefix@, 0) == "<pre>\n"@ + spec_numbered_from(
            lv,
            prefix@,
            0,
        ));
    }
    while i < n
        invariant
            0 <= i <= n,
            n == lines@.len(),
            lv == lines.deep_view(),
            lv.len() == n,
            forall|l: int| 0 <= l < n ==> lv[l] == lines@[l]@,
            "<pre>\n"@ + spec_numbered_from(lv, prefix@, 0) == out@ + spec_numbered_from(
                lv,
                prefix@,
                i as int,
            ),
        decreases n - i,
    {
        let num = text::usize_to_dec(i + 1);
        let mut piece = "<a href='".to_owned();
        piece.append(prefix);
        piece.append("#L");
        piece.append(num.as_str());
        piece.append("' id='L");
        piece.append(num.as_str());
        piece.append("' class='line'>");
        piece.append(num.as_str());
        piece.append("</a>");
        proof {
            assert(piece@ =~= spec_line_anchor(prefix@, (i + 1) as nat));
        }
        out.append(piece.as_str());
        out.append(lines[i].as_str());
        out.append("\n");
        proof {
            reveal_strlit("\n");
            assert(spec_numbered_from(lv, prefix@, i as int) == spec_line_anchor(
                prefix@,
                (i + 1) as nat,
            ) + lv[i as int] + seq!['\n'] + spec_numbered_from(lv, prefix@, i + 1));
            assert("<pre>\n"@ + spec_numbered_from(lv, prefix@, 0) =~= out@ + spec_numbered_from(
                lv,
                prefix@,
                i + 1,
            ));
        }
        i = i + 1;
    }
    out.append("</pre>\n");
    proof {
        assert(spec_numbered_from(lv, prefix@, n as int) =~= Seq::<char>::empty());
        assert(out@ =~= spec_numbered_lines(lv, prefix@));
    }
    out
}

/// The content type served by the raw endpoint: the table's answer for the
/// extension when it has one, otherwise a byte-stream type for binary
/// content and plain text for text.
pub fn raw_mime(essence: Option<String>, is_binary: bool) -> (r: String)
    ensures
        essence is Some ==> r@ == essence->Some_0@,
        essence is None && is_binary ==> r@ == "application/octet-stream"@,
        essence is None && !is_binary ==> r@ == "text/plain;charset=utf-8"@,
{
    match essence {
        Some(e) => e,
        None => {
            if is_binary {
                "application/octet-stream".to_owned()
            } else {
                "text/plain;charset=utf-8".to_owned()
            }
        },
    }
}

} // verus!
