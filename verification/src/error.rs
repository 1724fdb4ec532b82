//! The failures that cross the library's boundary.

use vstd::prelude::*;
use vstd::std_specs::convert::FromSpecImpl;

verus! {

/// `http::Error`: why a request could not be assembled. Carried, never inspected.
#[verifier::external_type_specification]
#[verifier::external_body]
pub struct ExHttpError(http::Error);

/// `serde_json::Error`: why a body was not JSON. Carried, never inspected.
#[verifier::external_type_specification]
#[verifier::external_body]
pub struct ExJsonError(serde_json::Error);

/// Everything that can go wrong between the upstream service and the bus.
#[derive(Debug)]
pub enum ProxyError {
    /// The streaming session refused to connect or to hand out a token;
    /// the text is the session's own description of the failure.
    Librespot(String),
    /// The playback request could not be assembled.
    Http(http::Error),
    /// A body that had to be JSON was not.
    Json(serde_json::Error),
}

impl From<serde_json::Error> for ProxyError {
    fn from(error: serde_json::Error) -> (res: Self) {
        ProxyError::Json(error)
    }
}

impl FromSpecImpl<serde_json::Error> for ProxyError {
    open spec fn obeys_from_spec() -> bool {
        true
    }

    open spec fn from_spec(error: serde_json::Error) -> Self {
        ProxyError::Json(error)
    }
}

impl From<http::Error> for ProxyError {
    fn from(error: http::Error) -> (res: Self) {
        ProxyError::Http(error)
    }
}

impl FromSpecImpl<http::Error> for ProxyError {
    open spec fn obeys_from_spec() -> bool {
        true
    }

    open spec fn from_spec(error: http::Error) -> Self {
        ProxyError::Http(error)
    }
}

} // verus!
