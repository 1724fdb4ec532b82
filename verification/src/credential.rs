//! The credential store: the access token the poller queries with, the
//! refresh token that renews it, and the bookkeeping that tells when
//! renewal is due.
//!
//! The store never talks to the token endpoint itself. It says what to ask
//! for ([`Credential::refresh_request`]) and takes in what came back
//! ([`Credential::refresh`]); the exchange over the network is the
//! caller's. All times are in seconds.

use vstd::prelude::*;
use vstd::string::StringExecFns;

verus! {

/// What the token endpoint answers to a successful exchange.
#[derive(Debug)]
pub struct TokenResponse {
    pub access_token: String,
    /// Seconds for which the access token is good, counted from the exchange.
    pub expires_in: u64,
    /// A new refresh token, where the endpoint chose to issue one.
    pub refresh_token: Option<String>,
}

/// Why no new access token was obtained.
#[derive(Debug, Clone, Copy, PartialEq, Eq, Structural)]
pub enum AuthError {
    /// No refresh token is held, so the endpoint was not even asked.
    NoRefreshToken,
    /// The endpoint was asked and did not grant a token.
    Rejected,
}

/// What to ask the token endpoint for.
#[derive(Debug)]
pub enum TokenRequest {
    /// The one-time exchange of an authorization code at start-up.
    AuthorizationCode { code: String, redirect_uri: String },
    /// The renewal of the access token.
    RefreshToken { refresh_token: String },
}

/// The texts of a list of form fields, in order.
pub open spec fn form_view(fields: Seq<(String, String)>) -> Seq<(Seq<char>, Seq<char>)> {
    Seq::new(fields.len(), |i: int| (fields[i].0@, fields[i].1@))
}

impl TokenRequest {
    /// The form fields of the request as the token endpoint expects them:
    /// the kind of grant first, then what the grant is made on.
    pub open spec fn form_fields(self) -> Seq<(Seq<char>, Seq<char>)> {
        match self {
            TokenRequest::AuthorizationCode { code, redirect_uri } => seq![
                ("grant_type"@, "authorization_code"@),
                ("code"@, code@),
                ("redirect_uri"@, redirect_uri@),
            ],
            TokenRequest::RefreshToken { refresh_token } => seq![
                ("grant_type"@, "refresh_token"@),
                ("refresh_token"@, refresh_token@),
            ],
        }
    }

    /// The form fields to post to the token endpoint.
    pub fn form(&self) -> (res: Vec<(String, String)>)
        ensures
            form_view(res@) == self.form_fields(),
    {
        let mut fields: Vec<(String, String)> = Vec::new();
        match self {
            TokenRequest::AuthorizationCode { code, redirect_uri } => {
                fields.push((String::from_str("grant_type"), String::from_str("authorization_code")));
                fields.push((String::from_str("code"), code.clone()));
                fields.push((String::from_str("redirect_uri"), redirect_uri.clone()));
            },
            TokenRequest::RefreshToken { refresh_token } => {
                fields.push((String::from_str("grant_type"), String::from_str("refresh_token")));
                fields.push((String::from_str("refresh_token"), refresh_token.clone()));
            },
        }
        fields
    }
}

/// The tokens in hand and the time they were obtained.
#[derive(Debug)]
pub struct Credential {
    /// Absent until the first successful exchange.
    pub access_token: Option<String>,
    pub refresh_token: Option<String>,
    /// When the access token was obtained.
    pub fetched_at: u64,
    /// Seconds for which the access token is good, counted from `fetched_at`.
    pub expires_in: u64,
}

impl Credential {
    /// The moment from which the access token is no longer good.
    pub open spec fn expires_at(self) -> int {
        self.fetched_at + self.expires_in
    }

    /// The access token is no longer good at `now`.
    pub open spec fn expired_at(self, now: u64) -> bool {
        now >= self.expires_at()
    }

    /// The store that a successful exchange at `now` leaves behind, where
    /// `kept` is the refresh token held before: the new access token and
    /// lifetime, and the new refresh token if one was issued, else `kept`.
    pub open spec fn granted(response: TokenResponse, kept: Option<String>, now: u64) -> Credential {
        Credential {
            access_token: Some(response.access_token),
            refresh_token: if response.refresh_token is Some {
                response.refresh_token
            } else {
                kept
            },
            fetched_at: now,
            expires_in: response.expires_in,
        }
    }

    /// The store after a renewal attempt that ended in `outcome` at `now`.
    /// Without a refresh token nothing is attempted and nothing changes; a
    /// failed attempt changes nothing either.
    pub open spec fn refreshed(
        self,
        outcome: core::result::Result<TokenResponse, AuthError>,
        now: u64,
    ) -> Credential {
        match outcome {
            Ok(response) if self.refresh_token is Some => Credential::granted(
                response,
                self.refresh_token,
                now,
            ),
            _ => self,
        }
    }

    /// What a renewal attempt that ended in `outcome` reports.
    pub open spec fn refresh_report(
        self,
        outcome: core::result::Result<TokenResponse, AuthError>,
    ) -> core::result::Result<(), AuthError> {
        if self.refresh_token is None {
            Err(AuthError::NoRefreshToken)
        } else {
            match outcome {
                Ok(_) => Ok(()),
                Err(error) => Err(error),
            }
        }
    }

    /// What to send to the token endpoint to trade an authorization code
    /// for the first tokens.
    pub fn authorization_code_request(code: String, redirect_uri: String) -> (res: TokenRequest)
        ensures
            res == (TokenRequest::AuthorizationCode { code, redirect_uri }),
    {
        TokenRequest::AuthorizationCode { code, redirect_uri }
    }

    /// Takes in the answer to the start-up exchange, received at `now`. A
    /// granted exchange yields the first store; a failed one is passed on,
    /// and there is no store to go on with.
    pub fn exchange_authorization_code(
        outcome: core::result::Result<TokenResponse, AuthError>,
        now: u64,
    ) -> (res: core::result::Result<Credential, AuthError>)
        ensures
            match outcome {
                Ok(response) => res == Ok::<Credential, AuthError>(
                    Credential::granted(response, None, now),
                ),
                Err(error) => res == Err::<Credential, AuthError>(error),
            },
    {
        match outcome {
            Ok(response) => Ok(
                Credential {
                    access_token: Some(response.access_token),
                    refresh_token: response.refresh_token,
                    fetched_at: now,
                    expires_in: response.expires_in,
                },
            ),
            Err(error) => Err(error),
        }
    }

    /// Whether the access token is no longer good at `now`: true from
    /// `fetched_at + expires_in` on.
    pub fn is_expired(&self, now: u64) -> (res: bool)
        ensures
            res == self.expired_at(now),
    {
        match self.fetched_at.checked_add(self.expires_in) {
            Some(deadline) => now >= deadline,
            None => false,
        }
    }

    /// What to send to the token endpoint to renew the access token, or the
    /// reason why there is nothing to send.
    pub fn refresh_request(&self) -> (res: core::result::Result<TokenRequest, AuthError>)
        ensures
            match self.refresh_token {
                Some(token) => res == Ok::<TokenRequest, AuthError>(
                    TokenRequest::RefreshToken { refresh_token: token },
                ),
                None => res == Err::<TokenRequest, AuthError>(AuthError::NoRefreshToken),
            },
    {
        match &self.refresh_token {
            Some(token) => Ok(TokenRequest::RefreshToken { refresh_token: token.clone() }),
            None => Err(AuthError::NoRefreshToken),
        }
    }

    /// Takes in the answer to a renewal, received at `now`. On success the
    /// store holds the new access token, counted as obtained at `now`, and
    /// keeps its refresh token unless a new one came along. On failure, and
    /// where no refresh token is held, the store stays as it is and the
    /// failure is reported.
    pub fn refresh(
        &mut self,
        outcome: core::result::Result<TokenResponse, AuthError>,
        now: u64,
    ) -> (res: core::result::Result<(), AuthError>)
        ensures
            *final(self) == old(self).refreshed(outcome, now),
            res == old(self).refresh_report(outcome),
    {
        if self.refresh_token.is_none() {
            return Err(AuthError::NoRefreshToken);
        }
        match outcome {
            Ok(response) => {
                self.access_token = Some(response.access_token);
                if response.refresh_token.is_some() {
                    self.refresh_token = response.refresh_token;
                }
                self.fetched_at = now;
                self.expires_in = response.expires_in;
                Ok(())
            },
            Err(error) => Err(error),
        }
    }
}

impl Clone for Credential {
    fn clone(&self) -> (res: Self)
        ensures
            res == *self,
    {
        Credential {
            access_token: clone_text(&self.access_token),
            refresh_token: clone_text(&self.refresh_token),
            fetched_at: self.fetched_at,
            expires_in: self.expires_in,
        }
    }
}

/// Copies a token that may be absent.
pub(crate) fn clone_text(text: &Option<String>) -> (res: Option<String>)
    ensures
        res == *text,
{
    match text {
        Some(t) => Some(t.clone()),
        None => None,
    }
}

/// A token that has just been obtained is good for exactly its lifetime:
/// right after a grant at `now` it is not expired unless its lifetime is
/// zero, and it is expired at `later` exactly when `later` is at least
/// `expires_in` past `now`.
pub proof fn lemma_grant_is_fresh(response: TokenResponse, kept: Option<String>, now: u64, later: u64)
    ensures
        Credential::granted(response, kept, now).expired_at(later) <==> later >= now
            + response.expires_in,
        response.expires_in > 0 ==> !Credential::granted(response, kept, now).expired_at(now),
{
}

/// A renewal that does not succeed leaves the store exactly as it was, so
/// the token it held stays available for the next query.
pub proof fn lemma_failed_refresh_changes_nothing(c: Credential, error: AuthError, now: u64)
    ensures
        c.refreshed(Err(error), now) == c,
        c.refresh_report(Err(error)) is Err,
{
}

/// A refresh token is never lost: after a successful renewal the store
/// still holds one, the new one if the endpoint issued it and the old one
/// otherwise.
pub proof fn lemma_refresh_token_is_kept(c: Credential, response: TokenResponse, now: u64)
    requires
        c.refresh_token is Some,
    ensures
        c.refreshed(Ok(response), now).refresh_token is Some,
        response.refresh_token is None ==> c.refreshed(Ok(response), now).refresh_token
            == c.refresh_token,
        c.refreshed(Ok(response), now).access_token == Some(response.access_token),
        c.refreshed(Ok(response), now).fetched_at == now,
{
}

/// An access token, once held, is never given up: whatever a renewal
/// brings, the store holds a token afterwards.
pub proof fn lemma_access_token_survives(
    c: Credential,
    outcome: core::result::Result<TokenResponse, AuthError>,
    now: u64,
)
    requires
        c.access_token is Some,
    ensures
        c.refreshed(outcome, now).access_token is Some,
{
}

} // verus!
