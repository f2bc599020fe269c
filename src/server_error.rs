use vstd::prelude::*;

use crate::config::ConfigError;
use crate::text::{owned, push_str};

verus! {

/// Errors of the token endpoint.
#[derive(Clone, Debug, PartialEq, Eq)]
pub enum AppError {
    InvalidRequest(String),
    Unauthorized,
    Forbidden,
    NotFound,
    Conflict,
    Internal,
}

impl AppError {
    /// A configuration error stops the service: it is internal.
    pub fn from_config(_e: ConfigError) -> (r: AppError)
        ensures
            r == AppError::Internal,
    {
        AppError::Internal
    }

    /// The HTTP status of the error.
    pub fn status_code(&self) -> (r: u16)
        ensures
            r == match *self {
                AppError::InvalidRequest(_) => 400u16,
                AppError::Unauthorized => 401u16,
                AppError::Forbidden => 403u16,
                AppError::NotFound => 404u16,
                AppError::Conflict => 409u16,
                AppError::Internal => 500u16,
            },
    {
        match self {
            AppError::InvalidRequest(_) => 400,
            AppError::Unauthorized => 401,
            AppError::Forbidden => 403,
            AppError::NotFound => 404,
            AppError::Conflict => 409,
            AppError::Internal => 500,
        }
    }

    /// The machine-readable code of the error body.
    pub fn code(&self) -> (r: &'static str)
        ensures
            r@ == match *self {
                AppError::InvalidRequest(_) => "BAD_REQUEST"@,
                AppError::Unauthorized => "UNAUTHORIZED"@,
                AppError::Forbidden => "FORBIDDEN"@,
                AppError::NotFound => "NOT_FOUND"@,
                AppError::Conflict => "CONFLICT"@,
                AppError::Internal => "INTERNAL"@,
            },
    {
        match self {
            AppError::InvalidRequest(_) => "BAD_REQUEST",
            AppError::Unauthorized => "UNAUTHORIZED",
            AppError::Forbidden => "FORBIDDEN",
            AppError::NotFound => "NOT_FOUND",
            AppError::Conflict => "CONFLICT",
            AppError::Internal => "INTERNAL",
        }
    }

    /// The human-readable message of the error body.
    pub fn message(&self) -> (r: String)
        ensures
            r@ == match *self {
                AppError::InvalidRequest(m) => "invalid request: "@ + m@,
                AppError::Unauthorized => "unauthorized"@,
                AppError::Forbidden => "forbidden"@,
                AppError::NotFound => "not found"@,
                AppError::Conflict => "conflict"@,
                AppError::Internal => "internal server error"@,
            },
    {
        match self {
            AppError::InvalidRequest(m) => {
                let mut s = owned("invalid request: ");
                push_str(&mut s, m.as_str());
                s
            },
            AppError::Unauthorized => owned("unauthorized"),
            AppError::Forbidden => owned("forbidden"),
            AppError::NotFound => owned("not found"),
            AppError::Conflict => owned("conflict"),
            AppError::Internal => owned("internal server error"),
        }
    }
}

} // verus!
