//! Request routing of the HTTP front end: which service answers a path,
//! and how the static-file service turns a request path into an answer.

use vstd::prelude::*;
use vstd::string::*;
use vstd::utf8::{encode_utf8, is_char_boundary};

use crate::error::Error;
use crate::text::{
    has_prefix, lemma_occurs_at_by_chars, starts_with, trim_leading, trim_start_matches,
};

verus! {

/// The path prefix under which static files are served.
pub open spec fn static_prefix() -> Seq<char> {
    "/+static"@
}

/// The prefix stripped from a path to name a static file.
pub open spec fn static_dir_prefix() -> Seq<char> {
    "/+static/"@
}

/// The body of every page that is not a static file.
pub open spec fn front_page_body() -> Seq<char> {
    "nobs"@
}

/// A path is sent to the static-file service exactly when its first eight
/// characters are `/+static`; any path whose first eight characters differ
/// (or that is shorter) is answered with "nobs".
pub proof fn lemma_static_route_by_chars(path: Seq<char>)
    ensures
        has_prefix(path, static_prefix()) <==> (path.len() >= 8 && path[0] == '/' && path[1]
            == '+' && path[2] == 's' && path[3] == 't' && path[4] == 'a' && path[5] == 't'
            && path[6] == 'i' && path[7] == 'c'),
{
    reveal_strlit("/+static");
    lemma_occurs_at_by_chars(path, 0, static_prefix());
    let q = static_prefix();
    assert(q.len() == 8);
    if path.len() >= 8 && path[0] == '/' && path[1] == '+' && path[2] == 's' && path[3] == 't'
        && path[4] == 'a' && path[5] == 't' && path[6] == 'i' && path[7] == 'c' {
        assert forall|j: int| 0 <= j < q.len() implies #[trigger] path[j] == q[j] by {
            assert(q[0] == '/' && q[1] == '+' && q[2] == 's' && q[3] == 't' && q[4] == 'a' && q[5]
                == 't' && q[6] == 'i' && q[7] == 'c');
        }
    }
    if has_prefix(path, q) {
        assert(path[0] == q[0] && path[1] == q[1] && path[2] == q[2] && path[3] == q[3]
            && path[4] == q[4] && path[5] == q[5] && path[6] == q[6] && path[7] == q[7]);
    }
}

/// The media type that `mime_guess` reads off the extension of `path`
/// (`application/octet-stream` when it knows none).
pub uninterp spec fn guessed_mime(path: Seq<char>) -> Seq<char>;

/// `mime_guess::from_path(path).first_or_octet_stream()`, as text: the
/// first media type registered for the extension of `path`, or
/// `application/octet-stream`.  Stated: the result is a function of the
/// path alone, and a path with no `.` (so no extension) gets
/// `application/octet-stream`; the table behind other paths is not.
#[verifier::external_body]
fn guess_mime(path: &str) -> (r: String)
    ensures
        r@ == guessed_mime(path@),
        !path@.contains('.') ==> r@ == "application/octet-stream"@,
{
    mime_guess::from_path(path).first_or_octet_stream().to_string()
}

/// Where the front service sends a request.
pub enum ParserRoute {
    /// To the static-file service.
    Static,
    /// Nowhere: it answers with this text.
    Text(String),
}

/// The front service, which dispatches on the request path.
pub struct Parser;

impl Default for Parser {
    fn default() -> (r: Self) {
        Parser
    }
}

impl Parser {
    /// Where a request for `path` goes: a request without a path is an
    /// error, one under `/+static` goes to the static-file service, and any
    /// other is answered with "nobs".
    pub fn route(&self, path: Option<&str>) -> (r: Result<ParserRoute, Error>)
        ensures
            match path {
                None => r matches Err(Error::PathMissing),
                Some(p) => if has_prefix(p@, static_prefix()) {
                    r matches Ok(ParserRoute::Static)
                } else {
                    r matches Ok(ParserRoute::Text(t)) && t@ == front_page_body()
                },
            },
    {
        match path {
            None => Err(Error::PathMissing),
            Some(p) => {
                if starts_with(p, "/+static") {
                    Ok(ParserRoute::Static)
                } else {
                    Ok(ParserRoute::Text(String::from_str("nobs")))
                }
            },
        }
    }
}

/// A static file as served: its media type and its contents.
pub struct StaticAsset {
    pub content_type: String,
    pub body: Vec<u8>,
}

/// The static-file service.
pub struct Static;

impl Default for Static {
    fn default() -> (r: Self) {
        Static
    }
}

impl Static {
    /// The name of the file asked for by a request for `path`: the path with
    /// every leading `/+static/` removed; a request without a path is an
    /// error.
    pub fn asset_path(&self, path: Option<&str>) -> (r: Result<String, Error>)
        ensures
            match path {
                None => r matches Err(Error::PathMissing),
                Some(p) => r matches Ok(name) && name@ == trim_leading(p@, static_dir_prefix()),
            },
    {
        match path {
            None => Err(Error::PathMissing),
            Some(p) => Ok(trim_start_matches(p, "/+static/")),
        }
    }

    /// The answer for the file `name`, given its contents if there is such
    /// a file: the contents with the media type guessed from the name, or
    /// a not-found error naming it.
    pub fn respond(&self, name: String, asset: Option<Vec<u8>>) -> (r: Result<StaticAsset, Error>)
        ensures
            match asset {
                Some(body) => r matches Ok(a) && a.content_type@ == guessed_mime(name@) && a.body
                    == body,
                None => r matches Err(Error::NotFound { path }) && path@ == name@,
            },
    {
        match asset {
            Some(body) => {
                let content_type = guess_mime(name.as_str());
                Ok(StaticAsset { content_type, body })
            },
            None => Err(Error::NotFound { path: name }),
        }
    }
}

/// The name of the file asked for by a request to the `/+static` handler:
/// the request path without its first nine bytes (the length of
/// `/+static/`), which must end on a character boundary.
pub fn handler_asset_path(path: &str) -> (r: String)
    requires
        is_char_boundary(path.spec_bytes(), 9),
    ensures
        encode_utf8(r@) == path.spec_bytes().subrange(9, path.spec_bytes().len() as int),
{
    let (_, rest) = path.split_at(9);
    String::from_str(rest)
}

} // verus!
