//! The playback query as an HTTP request.
//!
//! The query is a `GET` on a fixed address that carries the access token as
//! a bearer credential and asks for JSON. Turning that into a request value
//! is the HTTP library's work; what this module adds is the wording of the
//! headers and the account of when the request can be built at all.

use crate::error::ProxyError;
use vstd::prelude::*;
use vstd::string::StringExecFns;

verus! {

/// `http::Request`: a request ready to be sent. Built here, sent elsewhere.
#[verifier::external_type_specification]
#[verifier::external_body]
#[verifier::reject_recursive_types(T)]
pub struct ExRequest<T>(http::Request<T>);

/// `axum::body::Bytes`: the body of a request.
#[verifier::external_type_specification]
#[verifier::external_body]
pub struct ExBytes(axum::body::Bytes);

/// Where the playback state is asked for.
pub const CURRENTLY_PLAYING_URL: &'static str =
    "https://api.spotify.com/v1/me/player/currently-playing";

/// The permission an access token needs for the playback query.
pub const TOKEN_SCOPE: &'static str = "user-read-currently-playing";

/// The kind of answer the query asks for.
pub const ACCEPTED_TYPE: &'static str = "application/json";

/// Whether the HTTP library takes `uri` for a request address. The rules
/// are the library's own; the relay reasons about them only through this
/// name.
pub uninterp spec fn uri_accepted(uri: Seq<char>) -> bool;

/// The request that the HTTP library builds for a `GET` on `uri` with the
/// given values of the authorization and accept headers and an empty body,
/// or `None` where it builds none. What the request holds is the library's
/// to say; the relay reasons about it only through this name.
pub uninterp spec fn built_get(
    uri: Seq<char>,
    authorization: Seq<char>,
    accept: Seq<char>,
) -> Option<http::Request<axum::body::Bytes>>;

/// A character that may stand in a header value: a tab, or anything from
/// the space on except the delete character.
pub open spec fn header_char(c: char) -> bool {
    (c as u32 >= 32 && c as u32 != 127) || c as u32 == 9
}

/// A text that may stand as a header value.
pub open spec fn header_text(text: Seq<char>) -> bool {
    forall|i: int| 0 <= i < text.len() ==> header_char(#[trigger] text[i])
}

/// The value of the authorization header for an access token.
pub open spec fn bearer(access_token: Seq<char>) -> Seq<char> {
    "Bearer "@ + access_token
}

/// Trusted: `http::Request::get` on `uri`, the builder's `header` for the
/// authorization and accept headers, and its `body` with an empty body. Two
/// things are claimed. First, when the builder succeeds: when the library
/// takes the address, and both header values consist of bytes it allows,
/// which are the tab and every byte from 32 on except 127; the two header
/// names are the library's own constants and always pass. Second, that the
/// request built is a function of the three texts alone, each in its own
/// place: the same address, authorization and accept value always give the
/// same request.
#[verifier::external_body]
fn build_get(
    uri: &str,
    authorization: &str,
    accept: &str,
) -> (res: core::result::Result<http::Request<axum::body::Bytes>, http::Error>)
    ensures
        res is Ok <==> (uri_accepted(uri@) && header_text(authorization@) && header_text(accept@)),
        res matches Ok(request) ==> built_get(uri@, authorization@, accept@) == Some(request),
        res is Err ==> built_get(uri@, authorization@, accept@) is None,
{
    http::Request::get(uri)
        .header(http::header::AUTHORIZATION, authorization)
        .header(http::header::ACCEPT, accept)
        .body(Default::default())
}

/// The authorization header for an access token.
pub fn authorization(access_token: &str) -> (res: String)
    ensures
        res@ == bearer(access_token@),
{
    let mut value = String::from_str("Bearer ");
    value.append(access_token);
    value
}

/// The playback query for an access token: the `GET` that the HTTP library
/// builds on the playback address, with the token as bearer credential in
/// the authorization header, JSON as the accepted type and an empty body.
/// It can be built exactly when the library takes the address and the token
/// holds no character that a header value may not hold; anything else is
/// reported as an HTTP failure.
pub fn query_request(
    access_token: &str,
) -> (res: core::result::Result<http::Request<axum::body::Bytes>, ProxyError>)
    ensures
        res is Ok <==> (uri_accepted(CURRENTLY_PLAYING_URL@) && header_text(access_token@)),
        res matches Ok(request) ==> built_get(
            CURRENTLY_PLAYING_URL@,
            bearer(access_token@),
            ACCEPTED_TYPE@,
        ) == Some(request),
        res matches Err(error) ==> error is Http && built_get(
            CURRENTLY_PLAYING_URL@,
            bearer(access_token@),
            ACCEPTED_TYPE@,
        ) is None,
{
    let value = authorization(access_token);
    proof {
        reveal_strlit("Bearer ");
        reveal_strlit("application/json");
        if header_text(value@) {
            assert forall|i: int| 0 <= i < access_token@.len() implies header_char(
                #[trigger] access_token@[i],
            ) by {
                assert(value@[i + 7] == access_token@[i]);
            }
        }
    }
    match build_get(CURRENTLY_PLAYING_URL, value.as_str(), ACCEPTED_TYPE) {
        Ok(request) => Ok(request),
        Err(error) => Err(ProxyError::from(error)),
    }
}

} // verus!
