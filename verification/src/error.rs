//! Failure kinds of a probe and how each is reported to the HTTP client.

use vstd::prelude::*;

verus! {

/// Why a probe did not produce a metrics page.
#[derive(Clone, Copy, Debug, PartialEq, Eq, Structural)]
pub enum ProbeError {
    /// The request URI carried no query string at all.
    MissingQuery,
    /// The query string carried no `target` parameter.
    MissingTarget,
    /// The device could not be reached or the transfer broke.
    FetchFailed,
    /// The device answered, but not with the expected JSON shape.
    DecodeFailed,
    /// The decoded status cannot be mapped onto the gauges: it has no relay,
    /// no meter, or an uptime that the uptime gauge cannot represent.
    MalformedStatus,
    /// A metric of the registry failed to write itself out as text.
    EncodeFailed,
}

/// HTTP status for requests that lack a required parameter.
pub const UNPROCESSABLE_ENTITY: u16 = 422;

/// HTTP status for every failure on the device side or inside the exporter.
pub const INTERNAL_SERVER_ERROR: u16 = 500;

impl ProbeError {
    /// True for the failures caused by the client's request.
    pub open spec fn is_client_error(self) -> bool {
        self == ProbeError::MissingQuery || self == ProbeError::MissingTarget
    }

    /// The HTTP status that answers a request failing with this error.
    pub open spec fn spec_status_code(self) -> u16 {
        if self.is_client_error() {
            UNPROCESSABLE_ENTITY
        } else {
            INTERNAL_SERVER_ERROR
        }
    }

    /// The plain-text body that answers a request failing with this error.
    /// Failures that are not the client's are all reported with the same
    /// generic text, so that no detail leaks into the response.
    pub open spec fn spec_message(self) -> Seq<char> {
        match self {
            ProbeError::MissingQuery => "Missing query string"@,
            ProbeError::MissingTarget => "Missing target parameter"@,
            _ => "Internal Server Error"@,
        }
    }

    /// Returns the HTTP status for this error: 422 for a missing query
    /// string or target, 500 otherwise.
    pub fn status_code(&self) -> (code: u16)
        ensures
            code == self.spec_status_code(),
            code == 422 || code == 500,
            code == 422 <==> self.is_client_error(),
    {
        match self {
            ProbeError::MissingQuery | ProbeError::MissingTarget => UNPROCESSABLE_ENTITY,
            _ => INTERNAL_SERVER_ERROR,
        }
    }

    /// Returns the response body for this error.
    pub fn message(&self) -> (text: &'static str)
        ensures
            text@ == self.spec_message(),
    {
        match self {
            ProbeError::MissingQuery => "Missing query string",
            ProbeError::MissingTarget => "Missing target parameter",
            _ => "Internal Server Error",
        }
    }

    /// Tells whether the failure is to be written to the server's diagnostic
    /// stream: every failure that is not the client's.
    pub fn is_logged(&self) -> (logged: bool)
        ensures
            logged == !self.is_client_error(),
    {
        match self {
            ProbeError::MissingQuery | ProbeError::MissingTarget => false,
            _ => true,
        }
    }
}

} // verus!
