//! Plain-value HTTP replies and the routing of request paths.

use crate::error::ProbeError;
use crate::text::str_eq;
use vstd::prelude::*;
use vstd::string::StringExecFns;

verus! {

/// HTTP status of a served page.
pub const OK: u16 = 200;

/// HTTP status of an unknown path.
pub const NOT_FOUND: u16 = 404;

/// An HTTP response as plain values, ready to be handed to the transport.
#[derive(Clone, Debug, PartialEq, Eq)]
pub struct Reply {
    /// The HTTP status code.
    pub status: u16,
    /// The value of the `Content-Type` header, where one is set.
    pub content_type: Option<String>,
    /// The response body.
    pub body: String,
}

/// The mathematical content of a [`Reply`].
pub struct ReplyView {
    pub status: u16,
    pub content_type: Option<Seq<char>>,
    pub body: Seq<char>,
}

impl View for Reply {
    type V = ReplyView;

    open spec fn view(&self) -> ReplyView {
        ReplyView {
            status: self.status,
            content_type: match self.content_type {
                Some(t) => Some(t@),
                None => None,
            },
            body: self.body@,
        }
    }
}

/// The media type of a metrics page.
pub open spec fn openmetrics_content_type() -> Seq<char> {
    "application/openmetrics-text; version=1.0.0; charset=utf-8"@
}

/// The banner served at `/`.
pub open spec fn index_reply() -> ReplyView {
    ReplyView { status: OK, content_type: None, body: "Shelly Exporter running!"@ }
}

/// The answer to every unknown path.
pub open spec fn not_found_reply() -> ReplyView {
    ReplyView { status: NOT_FOUND, content_type: None, body: "Not Found"@ }
}

/// The answer to a probe that failed with `error`.
pub open spec fn error_reply(error: ProbeError) -> ReplyView {
    ReplyView {
        status: error.spec_status_code(),
        content_type: None,
        body: error.spec_message(),
    }
}

/// The answer to a successful probe: the encoded registry, verbatim.
pub open spec fn metrics_reply(body: Seq<char>) -> ReplyView {
    ReplyView { status: OK, content_type: Some(openmetrics_content_type()), body }
}

/// Builds the banner served at `/`.
pub fn index() -> (reply: Reply)
    ensures
        reply@ == index_reply(),
{
    Reply { status: OK, content_type: None, body: String::from_str("Shelly Exporter running!") }
}

/// Builds the answer to an unknown path.
pub fn not_found() -> (reply: Reply)
    ensures
        reply@ == not_found_reply(),
{
    Reply { status: NOT_FOUND, content_type: None, body: String::from_str("Not Found") }
}

/// Builds the answer to a probe that failed with `error`.
pub fn error_response(error: ProbeError) -> (reply: Reply)
    ensures
        reply@ == error_reply(error),
{
    Reply {
        status: error.status_code(),
        content_type: None,
        body: String::from_str(error.message()),
    }
}

/// Builds the answer to a successful probe around the encoded registry.
pub fn metrics_response(body: String) -> (reply: Reply)
    ensures
        reply@ == metrics_reply(body@),
{
    Reply {
        status: OK,
        content_type: Some(
            String::from_str("application/openmetrics-text; version=1.0.0; charset=utf-8"),
        ),
        body,
    }
}

/// Where a request path leads.
#[derive(Clone, Copy, Debug, PartialEq, Eq, Structural)]
pub enum Route {
    /// `/`: the banner.
    Index,
    /// `/probe`: one probe of the target named in the query string.
    Probe,
    /// Every other path.
    NotFound,
}

/// The route of a path: exact match on `/` and `/probe`, nothing else.
pub open spec fn spec_route(path: Seq<char>) -> Route {
    if path == "/"@ {
        Route::Index
    } else if path == "/probe"@ {
        Route::Probe
    } else {
        Route::NotFound
    }
}

/// Routes a request path.
pub fn route(path: &str) -> (r: Route)
    ensures
        r == spec_route(path@),
{
    if str_eq(path, "/") {
        Route::Index
    } else if str_eq(path, "/probe") {
        Route::Probe
    } else {
        Route::NotFound
    }
}

} // verus!
