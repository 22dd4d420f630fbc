//! Repository resolution: an untrusted, percent-encoded repository name is
//! decoded, joined under the project root, canonicalized by the caller, and
//! admitted only when the canonical path stays inside the root and the
//! repository both opens and carries the export marker.
use crate::errors::{Failure, WebError};
use crate::paths;
use vstd::prelude::*;

verus! {

/// What percent-decoding with lossy UTF-8 recovery makes of a repository
/// name; a function of the input characters alone.
pub uninterp spec fn percent_decoded(s: Seq<char>) -> Seq<char>;

/// Relies on percent_encoding::percent_decode_str: decodes `%XX` escapes and
/// replaces invalid UTF-8 with the replacement character; never fails.
#[verifier::external_body]
pub fn percent_decode(s: &str) -> (r: String)
    ensures
        r@ == percent_decoded(s@),
{
    percent_encoding::percent_decode_str(s).decode_utf8_lossy().into_owned()
}

/// The path a repository name points at before any look at the disk: the
/// decoded name joined under the project root. An absolute decoded name
/// replaces the root outright and is then caught by the descendant check.
pub fn repo_candidate_path(projectroot: &str, raw_name: &str) -> (r: String)
    ensures
        r@ == paths::spec_join_path(projectroot@, percent_decoded(raw_name@)),
{
    let name = percent_decode(raw_name);
    paths::join_path(projectroot, name.as_str())
}

/// The access decision. `canonical` is the symlink-resolved candidate path,
/// absent when the name does not resolve on disk at all; `opened` whether the
/// store opened a repository there; `exported` whether the export marker file
/// is present in its metadata directory.
pub open spec fn spec_resolve(
    root: Seq<char>,
    canonical: Option<Seq<char>>,
    opened: bool,
    exported: bool,
) -> Result<(), WebError> {
    match canonical {
        None => Err(WebError::NotFound),
        Some(p) => if !paths::spec_path_within(root, p) {
            Err(WebError::Forbidden)
        } else if opened && exported {
            Ok(())
        } else {
            Err(WebError::NotFound)
        },
    }
}

/// Decides whether a request may reach the repository. Forbidden answers and
/// not-found answers carry fixed messages, so all not-found cases look alike.
pub fn resolve_decision(root: &str, canonical: Option<&String>, opened: bool, exported: bool) -> (r:
    Result<(), Failure>)
    ensures
        r is Ok <==> spec_resolve(
            root@,
            match canonical {
                Some(p) => Some(p@),
                None => None,
            },
            opened,
            exported,
        ) is Ok,
        r is Err ==> r->Err_0.kind == spec_resolve(
            root@,
            match canonical {
                Some(p) => Some(p@),
                None => None,
            },
            opened,
            exported,
        )->Err_0,
        r is Err && r->Err_0.kind is NotFound ==> r->Err_0.message@
            == "This repository does not exist."@,
        r is Err && r->Err_0.kind is Forbidden ==> r->Err_0.message@
            == "You do not have access to this resource."@,
{
    match canonical {
        None => Err(Failure::repo_not_found()),
        Some(p) => {
            if !paths::path_within(root, p.as_str()) {
                Err(Failure::forbidden())
            } else if opened && exported {
                Ok(())
            } else {
                Err(Failure::repo_not_found())
            }
        },
    }
}

/// Any name that resolves outside the project root is refused with
/// `Forbidden`, whatever the disk holds at that path.
pub proof fn lemma_traversal_forbidden(
    root: Seq<char>,
    p: Seq<char>,
    opened: bool,
    exported: bool,
)
    requires
        !paths::spec_path_within(root, p),
    ensures
        spec_resolve(root, Some(p), opened, exported) == Err::<(), WebError>(WebError::Forbidden),
{
}

/// A repository without the export marker is refused exactly like one that
/// does not exist: the same kind, whether the path resolved, opened, or not.
pub proof fn lemma_unexported_like_missing(root: Seq<char>, p: Seq<char>, opened: bool)
    requires
        paths::spec_path_within(root, p),
    ensures
        spec_resolve(root, Some(p), opened, false) == Err::<(), WebError>(WebError::NotFound),
        spec_resolve(root, Some(p), opened, false) == spec_resolve(root, None, false, false),
        spec_resolve(root, Some(p), opened, false) == spec_resolve(root, Some(p), false, false),
{
}

} // verus!
