use vstd::prelude::*;
use crate::api::models::{TokenSet, expired_at};

verus! {

/// How to obtain the access token for a request.
#[derive(Debug, Clone, PartialEq, Eq)]
pub enum TokenPlan {
    /// The cached token is still valid: use it.
    UseCached(String),
    /// The cached token has expired but can be refreshed with this refresh token.
    Refresh(String),
    /// Acquire a new token through the Client Credentials flow.
    ClientCredentials,
}

/// The token strategy, in order of preference: a cached token that is still
/// valid, else a refresh with the stored refresh token, else Client
/// Credentials.
pub open spec fn spec_plan_token(tokens: Option<TokenSet>, now: int) -> TokenPlan {
    match tokens {
        Some(t) => if !expired_at(t, now) {
            TokenPlan::UseCached(t.access_token)
        } else {
            match t.refresh_token {
                Some(r) => TokenPlan::Refresh(r),
                None => TokenPlan::ClientCredentials,
            }
        },
        None => TokenPlan::ClientCredentials,
    }
}

/// Decide how to obtain a valid access token at time `now`, given the cached tokens.
pub fn plan_token(tokens: &Option<TokenSet>, now: u64) -> (p: TokenPlan)
    ensures
        p == spec_plan_token(*tokens, now as int),
{
    match tokens {
        Some(t) => {
            if !t.is_expired_at(now) {
                TokenPlan::UseCached(t.access_token.clone())
            } else {
                match &t.refresh_token {
                    Some(r) => TokenPlan::Refresh(r.clone()),
                    None => TokenPlan::ClientCredentials,
                }
            }
        },
        None => TokenPlan::ClientCredentials,
    }
}

/// A cached token is only ever used while it is not expired, and an
/// expired token with a refresh token is refreshed rather than replaced.
pub proof fn lemma_plan_uses_only_valid_tokens(tokens: Option<TokenSet>, now: int)
    ensures
        spec_plan_token(tokens, now) is UseCached ==> tokens is Some && !expired_at(
            tokens.unwrap(),
            now,
        ) && spec_plan_token(tokens, now)->UseCached_0 == tokens.unwrap().access_token,
        tokens is Some && expired_at(tokens.unwrap(), now) && tokens.unwrap().refresh_token is Some
            ==> spec_plan_token(tokens, now) == TokenPlan::Refresh(
            tokens.unwrap().refresh_token.unwrap(),
        ),
{
}

/// A cached token that is still valid 60 seconds from `now` is always used
/// as it is, whether or not it carries a refresh token; an expired one is
/// refreshed when it can be and otherwise replaced through Client
/// Credentials, as is a missing one.
pub proof fn lemma_valid_token_is_used(tokens: Option<TokenSet>, now: int)
    ensures
        tokens is Some && now + 60 < tokens.unwrap().expires_at ==> spec_plan_token(tokens, now)
            == TokenPlan::UseCached(tokens.unwrap().access_token),
        tokens is Some && now + 60 >= tokens.unwrap().expires_at
            && tokens.unwrap().refresh_token is Some ==> spec_plan_token(tokens, now)
            == TokenPlan::Refresh(tokens.unwrap().refresh_token.unwrap()),
        tokens is Some && now + 60 >= tokens.unwrap().expires_at
            && tokens.unwrap().refresh_token is None ==> spec_plan_token(tokens, now)
            == TokenPlan::ClientCredentials,
        tokens is None ==> spec_plan_token(tokens, now) == TokenPlan::ClientCredentials,
{
}

/// The full URL of an API path.
pub fn api_url(path: &str) -> (url: String)
    ensures
        url@ == "https://openapi.tidal.com/v2"@ + path@,
{
    let mut url = String::from_str("https://openapi.tidal.com/v2");
    url.append(path);
    url
}

/// The `Authorization` header value for an access token.
pub fn bearer_header(token: &str) -> (h: String)
    ensures
        h@ == "Bearer "@ + token@,
{
    let mut h = String::from_str("Bearer ");
    h.append(token);
    h
}

} // verus!
