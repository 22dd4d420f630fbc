//! Decisions at the web boundary that are pure functions of the request:
//! legacy gitweb redirects, the static-resource table, conditional-GET
//! handling, the error-page plan, and the base URL of a feed.
use crate::paths;
use crate::text;
use vstd::prelude::*;

verus! {

/// Where a legacy gitweb query redirects: `p` names the repository, `a` the
/// action, `h` the revision. Without a repository there is no redirect;
/// unknown actions go to the index page.
pub fn gitweb_redirect_target(
    p: Option<&String>,
    a: Option<&String>,
    h: Option<&String>,
) -> (r: Option<String>)
    ensures
        p is None ==> r is None,
        p is Some ==> r is Some,
        p is Some ==> ({
            let repo = p->Some_0@;
            let rev = match h {
                Some(x) => x@,
                None => Seq::<char>::empty(),
            };
            match a {
                None => r->Some_0@ == "/"@ + repo + "/"@,
                Some(act) => {
                    &&& act@ == "summary"@ ==> r->Some_0@ == "/"@ + repo + "/"@
                    &&& (act@ != "summary"@ && (act@ == "commit"@ || act@ == "commitdiff"@))
                        ==> r->Some_0@ == "/"@ + repo + "/commit/"@ + rev
                    &&& (act@ != "summary"@ && act@ != "commit"@ && act@ != "commitdiff"@ && (act@
                        == "shortlog"@ || act@ == "log"@)) ==> r->Some_0@ == "/"@ + repo + "/log/"@
                        + rev
                    &&& (act@ != "summary"@ && act@ != "commit"@ && act@ != "commitdiff"@ && act@
                        != "shortlog"@ && act@ != "log"@) ==> r->Some_0@ == "/"@
                },
            }
        }),
{
    let repo = match p {
        Some(x) => x,
        None => {
            return None;
        },
    };
    match a {
        None => {
            let mut out = "/".to_owned();
            out.append(repo.as_str());
            out.append("/");
            Some(out)
        },
        Some(act) => {
            if text::str_eq(act.as_str(), "summary") {
                let mut out = "/".to_owned();
                out.append(repo.as_str());
                out.append("/");
                Some(out)
            } else if text::str_eq(act.as_str(), "commit") || text::str_eq(
                act.as_str(),
                "commitdiff",
            ) {
                let mut out = "/".to_owned();
                out.append(repo.as_str());
                out.append("/commit/");
                match h {
                    Some(x) => out.append(x.as_str()),
                    None => (),
                }
                Some(out)
            } else if text::str_eq(act.as_str(), "shortlog") || text::str_eq(act.as_str(), "log") {
                let mut out = "/".to_owned();
                out.append(repo.as_str());
                out.append("/log/");
                match h {
                    Some(x) => out.append(x.as_str()),
                    None => (),
                }
                Some(out)
            } else {
                Some("/".to_owned())
            }
        },
    }
}

/// The fixed static-resource table: the file below the template directory
/// and the content type served for it.
pub fn static_route(path: &str) -> (r: Option<(&'static str, &'static str)>)
    ensures
        path@ == "/style.css"@ ==> r is Some && r->Some_0.0@ == "templates/static/style.css"@
            && r->Some_0.1@ == "text/css;charset=utf-8"@,
        (path@ != "/style.css"@ && path@ == "/robots.txt"@) ==> r is Some && r->Some_0.0@
            == "templates/static/robots.txt"@ && r->Some_0.1@ == "text/plain;charset=utf-8"@,
        (path@ != "/style.css"@ && path@ != "/robots.txt"@ && path@ == "/Feed-icon.svg"@) ==> r
            is Some && r->Some_0.0@ == "templates/static/Feed-icon.svg"@ && r->Some_0.1@
            == "image/svg+xml"@,
        (path@ != "/style.css"@ && path@ != "/robots.txt"@ && path@ != "/Feed-icon.svg"@) ==> r
            is None,
{
    if text::str_eq(path, "/style.css") {
        Some(("templates/static/style.css", "text/css;charset=utf-8"))
    } else if text::str_eq(path, "/robots.txt") {
        Some(("templates/static/robots.txt", "text/plain;charset=utf-8"))
    } else if text::str_eq(path, "/Feed-icon.svg") {
        Some(("templates/static/Feed-icon.svg", "image/svg+xml"))
    } else {
        None
    }
}

/// The request methods the static handler distinguishes.
#[derive(Clone, Copy, Debug, PartialEq, Eq, Structural)]
pub enum HttpMethod {
    Get,
    Head,
    Other,
}

/// How a static resource is answered.
#[derive(Clone, Copy, Debug, PartialEq, Eq, Structural)]
pub enum StaticPlan {
    NotModified,
    SendBody,
    HeadOnly,
    MethodNotAllowed,
}

/// Conditional-GET handling: when the client's `If-Modified-Since` moment is
/// no older than the file, answer 304 with no body; otherwise serve the body
/// for GET, only the headers for HEAD, and refuse any other method.
pub fn conditional_get_plan(
    method: HttpMethod,
    if_modified_since: Option<i64>,
    last_modified: i64,
) -> (r: StaticPlan)
    ensures
        (if_modified_since is Some && last_modified <= if_modified_since->Some_0) ==> r
            is NotModified,
        !(if_modified_since is Some && last_modified <= if_modified_since->Some_0) ==> match method {
            HttpMethod::Get => r is SendBody,
            HttpMethod::Head => r is HeadOnly,
            HttpMethod::Other => r is MethodNotAllowed,
        },
{
    match if_modified_since {
        Some(t) => {
            if last_modified <= t {
                return StaticPlan::NotModified;
            }
        },
        None => (),
    }
    match method {
        HttpMethod::Get => StaticPlan::SendBody,
        HttpMethod::Head => StaticPlan::HeadOnly,
        HttpMethod::Other => StaticPlan::MethodNotAllowed,
    }
}

/// How an error is shown: HEAD answers carry no body; an internal error's
/// message is replaced by a generic phrase outside development builds; a 405
/// answer must name the allowed methods.
pub struct ErrorPagePlan {
    pub show_body: bool,
    pub message: String,
    pub allow_header: bool,
}

pub fn error_page_plan(status: u16, is_head: bool, message: &str, is_debug: bool) -> (r:
    ErrorPagePlan)
    ensures
        r.show_body == !is_head,
        r.allow_header == (status == 405),
        (status == 500 && !is_debug) ==> r.message@ == "Internal Server Error"@,
        !(status == 500 && !is_debug) ==> r.message@ == message@,
{
    let msg = if status == 500 && !is_debug {
        "Internal Server Error".to_owned()
    } else {
        message.to_owned()
    };
    ErrorPagePlan { show_body: !is_head, message: msg, allow_header: status == 405 }
}

/// The base URL of a feed: the feed file name is dropped from the request
/// path, and a named revision drops its two extra segments as well.
pub fn feed_base_url(path: &str, has_ref: bool) -> (r: String)
    ensures
        !has_ref ==> r@ == paths::spec_pop_segment(path@),
        has_ref ==> r@ == paths::spec_pop_segment(
            paths::spec_pop_segment(paths::spec_pop_segment(path@)),
        ),
{
    let once = paths::pop_segment(path);
    if has_ref {
        let twice = paths::pop_segment(once.as_str());
        paths::pop_segment(twice.as_str())
    } else {
        once
    }
}

} // verus!
