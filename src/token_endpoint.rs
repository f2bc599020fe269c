use vstd::prelude::*;

use crate::issuer::IssuedTokenPair;
use crate::server_error::AppError;
use crate::text::{owned, same_text};

verus! {

/// Body of `POST /token`: a refresh when `grant_type` is `refresh_token`, else an issue.
#[derive(Clone, Debug)]
pub struct TokenRequest {
    pub grant_type: Option<String>,
    /// The subject's UUID value; required to issue.
    pub sub: Option<u128>,
    /// The key thumbprint to bind new tokens to.
    pub jkt: Option<String>,
    /// Required to refresh.
    pub refresh_token: Option<String>,
}

/// Body of a refresh request in its strict form.
#[derive(Clone, Debug)]
pub struct RefreshRequest {
    pub grant_type: String,
    pub refresh_token: String,
}

/// What the token endpoint is asked to do.
#[derive(Clone, Debug)]
pub enum TokenGrant {
    Issue { sub: u128, jkt: Option<String> },
    Refresh { refresh_token: String },
}

/// Body of a successful token response.
#[derive(Clone, Debug)]
pub struct TokenResponse {
    pub access_token: String,
    pub token_type: String,
    pub expires_in: u64,
    pub refresh_token: String,
    pub session_id: Option<u128>,
}

pub open spec fn refresh_grant() -> Seq<char> {
    "refresh_token"@
}

pub open spec fn is_refresh(grant_type: Option<String>) -> bool {
    grant_type matches Some(g) && g@ == refresh_grant()
}

/// Reads a token request: a refresh needs `refresh_token`, an issue needs `sub`; a missing
/// field is an invalid request.
pub fn plan_token_request(req: TokenRequest) -> (r: Result<TokenGrant, AppError>)
    ensures
        is_refresh(req.grant_type) && req.refresh_token is Some ==> (r matches Ok(
            TokenGrant::Refresh { refresh_token: t },
        ) && t == req.refresh_token->0),
        is_refresh(req.grant_type) && req.refresh_token is None ==> r matches Err(
            AppError::InvalidRequest(_),
        ),
        !is_refresh(req.grant_type) && req.sub is Some ==> (r matches Ok(
            TokenGrant::Issue { sub, jkt },
        ) && sub == req.sub->0 && jkt == req.jkt),
        !is_refresh(req.grant_type) && req.sub is None ==> r matches Err(
            AppError::InvalidRequest(_),
        ),
{
    let refresh = match &req.grant_type {
        Some(g) => same_text(g.as_str(), "refresh_token"),
        None => false,
    };
    if refresh {
        match req.refresh_token {
            Some(t) => Ok(TokenGrant::Refresh { refresh_token: t }),
            None => Err(AppError::InvalidRequest(owned("refresh_token is required"))),
        }
    } else {
        match req.sub {
            Some(sub) => Ok(TokenGrant::Issue { sub, jkt: req.jkt }),
            None => Err(AppError::InvalidRequest(owned("sub is required"))),
        }
    }
}

/// The response body for an issued or refreshed pair.
pub fn token_response(pair: IssuedTokenPair) -> (r: TokenResponse)
    ensures
        r.access_token == pair.access_token,
        r.token_type@ == "Bearer"@,
        r.expires_in == pair.expires_in,
        r.refresh_token == pair.refresh_token,
        r.session_id == Some(pair.session_id),
{
    TokenResponse {
        access_token: pair.access_token,
        token_type: owned("Bearer"),
        expires_in: pair.expires_in,
        refresh_token: pair.refresh_token,
        session_id: Some(pair.session_id),
    }
}

} // verus!
