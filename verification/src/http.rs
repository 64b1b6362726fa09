//! The HTTP surface of the vote webhook: responses, routing and the bearer
//! credential of a request.

use vstd::prelude::*;
use crate::text::{after_prefix, same_text, has_prefix};

verus! {

/// Status of a served liveness check or of an accepted vote.
pub const STATUS_OK: u16 = 200;

/// Status of a vote request whose body cannot be used.
pub const STATUS_BAD_REQUEST: u16 = 400;

/// Status of a vote request without the right credential.
pub const STATUS_UNAUTHORIZED: u16 = 401;

/// Status of a request that no route serves.
pub const STATUS_METHOD_NOT_ALLOWED: u16 = 405;

/// Status of a vote whose downstream call failed.
pub const STATUS_BAD_GATEWAY: u16 = 502;

/// What the caller of the webhook gets back.
#[derive(Clone, Debug, PartialEq, Eq)]
pub struct Response {
    pub status: u16,
    pub body: String,
}

/// A response as a mathematical value.
pub ghost struct ResponseView {
    pub status: u16,
    pub body: Seq<char>,
}

impl View for Response {
    type V = ResponseView;

    open spec fn view(&self) -> ResponseView {
        ResponseView { status: self.status, body: self.body@ }
    }
}

impl Response {
    /// A response with the given status and text.
    pub fn new(status: u16, body: &str) -> (r: Response)
        ensures
            r@ == (ResponseView { status, body: body@ }),
    {
        Response { status, body: body.to_owned() }
    }
}

/// What a request line asks for.
#[derive(Clone, Copy, Debug, PartialEq, Eq, Structural)]
pub enum Route {
    /// The liveness check.
    Liveness,
    /// A vote notification.
    Vote,
    /// Nothing that is served.
    Refused,
}

/// The route of a request line: the root path is the liveness check under any
/// method, `/vote` takes votes under `POST` only, and nothing else is served.
pub open spec fn route_of(method: Seq<char>, path: Seq<char>) -> Route {
    if path == "/"@ {
        Route::Liveness
    } else if path == "/vote"@ && method == "POST"@ {
        Route::Vote
    } else {
        Route::Refused
    }
}

/// Finds the route of a request line.
pub fn route(method: &str, path: &str) -> (r: Route)
    ensures
        r == route_of(method@, path@),
{
    if same_text(path, "/") {
        Route::Liveness
    } else if same_text(path, "/vote") && same_text(method, "POST") {
        Route::Vote
    } else {
        Route::Refused
    }
}

/// The token that an `Authorization` header value carries under the `Bearer`
/// scheme: what follows the scheme's name and one space. A value of another
/// shape carries none.
pub open spec fn bearer_of(header: Seq<char>) -> Option<Seq<char>> {
    if has_prefix(header, "Bearer "@) {
        Some(header.subrange("Bearer "@.len() as int, header.len() as int))
    } else {
        None
    }
}

/// Extracts the bearer token from an `Authorization` header value.
pub fn bearer_token(header: &str) -> (r: Option<String>)
    ensures
        r.deep_view() == bearer_of(header@),
{
    after_prefix(header, "Bearer ")
}

/// Whether a request with the given `Authorization` header value, if it has
/// one, presents exactly the shared secret.
pub open spec fn presents_secret(authorization: Option<Seq<char>>, secret: Seq<char>) -> bool {
    match authorization {
        Some(header) => bearer_of(header) == Some(secret),
        None => false,
    }
}

/// Checks the credential of a request against the shared secret.
pub fn authorized(authorization: Option<&str>, secret: &str) -> (r: bool)
    ensures
        r == presents_secret(authorization.deep_view(), secret@),
{
    match authorization {
        Some(header) => match bearer_token(header) {
            Some(token) => same_text(token.as_str(), secret),
            None => false,
        },
        None => false,
    }
}

} // verus!
