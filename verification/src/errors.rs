//! The error taxonomy of the library: every component failure is one of these
//! kinds, carried together with a human-readable message.
use vstd::prelude::*;

verus! {

/// How a request can fail. `NotFound` deliberately covers both an absent and
/// an unpublished repository, so callers cannot tell the two apart;
/// `Forbidden` is distinguishable because it concerns the request itself.
#[derive(Clone, Copy, Debug, PartialEq, Eq, Structural)]
pub enum WebError {
    Forbidden,
    NotFound,
    InvalidReference,
    EmptyRepository,
    StoreError,
    ServiceUnavailable,
    UnsupportedContent,
}

/// A failure as it travels to the request boundary: its kind and a message.
pub struct Failure {
    pub kind: WebError,
    pub message: String,
}

impl WebError {
    /// The HTTP status each kind maps to. An empty repository is answered
    /// with a redirect to the repository's landing page.
    pub fn status(&self) -> (s: u16)
        ensures
            self is Forbidden ==> s == 403,
            self is NotFound ==> s == 404,
            self is InvalidReference ==> s == 400,
            self is EmptyRepository ==> s == 307,
            self is StoreError ==> s == 500,
            self is ServiceUnavailable ==> s == 503,
            self is UnsupportedContent ==> s == 415,
    {
        match self {
            WebError::Forbidden => 403,
            WebError::NotFound => 404,
            WebError::InvalidReference => 400,
            WebError::EmptyRepository => 307,
            WebError::StoreError => 500,
            WebError::ServiceUnavailable => 503,
            WebError::UnsupportedContent => 415,
        }
    }
}

impl Failure {
    pub fn new(kind: WebError, message: String) -> (r: Failure)
        ensures
            r.kind == kind,
            r.message == message,
    {
        Failure { kind, message }
    }

    /// The page-escape failure: the request named a resource outside the root.
    pub fn forbidden() -> (r: Failure)
        ensures
            r.kind is Forbidden,
            r.message@ == "You do not have access to this resource."@,
    {
        Failure { kind: WebError::Forbidden, message: "You do not have access to this resource.".to_owned() }
    }

    /// The not-found failure used for missing and unpublished repositories
    /// alike, so the two cases stay indistinguishable.
    pub fn repo_not_found() -> (r: Failure)
        ensures
            r.kind is NotFound,
            r.message@ == "This repository does not exist."@,
    {
        Failure { kind: WebError::NotFound, message: "This repository does not exist.".to_owned() }
    }
}

} // verus!
