//! Errors of the HTTP services, their messages and the status each is
//! answered with.

use vstd::prelude::*;
use vstd::std_specs::convert::FromSpecImpl;
use vstd::string::*;

verus! {

/// What went wrong while answering a request.
#[derive(Debug)]
pub enum Error {
    /// No resource exists at `path`.
    NotFound { path: String },
    /// The request carried no path.
    PathMissing,
    /// A page template could not be rendered; `inner` says why.
    TemplateRenderFail { inner: String },
}

/// The text of an error.
pub open spec fn error_message(e: Error) -> Seq<char> {
    match e {
        Error::NotFound { path } => "resource not found: "@ + path@,
        Error::PathMissing => "path missing"@,
        Error::TemplateRenderFail { inner } => "template render failed: "@ + inner@,
    }
}

/// The HTTP status an error is answered with: 404 for a missing resource,
/// 500 for everything else.
pub open spec fn error_status(e: Error) -> u16 {
    match e {
        Error::NotFound { .. } => 404,
        _ => 500,
    }
}

impl Error {
    /// The text of this error.
    pub fn message(&self) -> (r: String)
        ensures
            r@ == error_message(*self),
    {
        match self {
            Error::NotFound { path } => {
                let mut m = String::from_str("resource not found: ");
                m.append(path.as_str());
                m
            },
            Error::PathMissing => String::from_str("path missing"),
            Error::TemplateRenderFail { inner } => {
                let mut m = String::from_str("template render failed: ");
                m.append(inner.as_str());
                m
            },
        }
    }
}

/// An error as handed to the HTTP server.
#[derive(Debug)]
pub struct Compat(pub Error);

impl Compat {
    /// The text of the wrapped error.
    pub fn message(&self) -> (r: String)
        ensures
            r@ == error_message(self.0),
    {
        self.0.message()
    }

    /// The HTTP status the wrapped error is answered with.
    pub fn status_code(&self) -> (r: u16)
        ensures
            r == error_status(self.0),
    {
        match &self.0 {
            Error::NotFound { .. } => 404,
            _ => 500,
        }
    }
}

impl From<Error> for Compat {
    /// Wraps an error for the HTTP server.
    fn from(err: Error) -> (r: Self)
        ensures
            r.0 == err,
    {
        Compat(err)
    }
}

impl FromSpecImpl<Error> for Compat {
    open spec fn obeys_from_spec() -> bool {
        true
    }

    open spec fn from_spec(v: Error) -> Compat {
        Compat(v)
    }
}

} // verus!
