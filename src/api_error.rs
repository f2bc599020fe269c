use vstd::prelude::*;

use crate::id_codec::IdCodecError;
use crate::text::{owned, push_str};

verus! {

/// The body of an error response: `{ "error": { "code", "message" } }`.
#[derive(Clone, Debug)]
pub struct ErrorResponse {
    pub error: ErrorBody,
}

#[derive(Clone, Debug)]
pub struct ErrorBody {
    pub code: &'static str,
    pub message: String,
}

/// Errors of the resource API.
#[derive(Clone, Debug)]
pub enum AppError {
    BadRequest { code: &'static str, message: String },
    NotFound { resource: &'static str },
    Internal,
}

impl AppError {
    pub fn bad_request(code: &'static str, message: String) -> (r: Self)
        ensures
            r matches AppError::BadRequest { code: c, message: m } && c == code && m == message,
    {
        AppError::BadRequest { code, message }
    }

    pub fn not_found(resource: &'static str) -> (r: Self)
        ensures
            r matches AppError::NotFound { resource: x } && x == resource,
    {
        AppError::NotFound { resource }
    }

    /// A malformed public id is the client's fault; any other codec error is internal.
    pub fn from_id_codec(e: IdCodecError) -> (r: Self)
        ensures
            match e {
                IdCodecError::DecodeInvalidFormat | IdCodecError::DecodeOutOfRange => r matches AppError::BadRequest { code: c, message: m } && c@ == "INVALID_PUBLIC_ID"@ && m@
                    == "invalid id"@,
                _ => r is Internal,
            },
    {
        match e {
            IdCodecError::DecodeInvalidFormat | IdCodecError::DecodeOutOfRange => {
                AppError::bad_request("INVALID_PUBLIC_ID", owned("invalid id"))
            },
            _ => AppError::Internal,
        }
    }

    pub fn status_code(&self) -> (r: u16)
        ensures
            r == match *self {
                AppError::BadRequest { .. } => 400u16,
                AppError::NotFound { .. } => 404u16,
                AppError::Internal => 500u16,
            },
    {
        match self {
            AppError::BadRequest { .. } => 400,
            AppError::NotFound { .. } => 404,
            AppError::Internal => 500,
        }
    }

    /// The body of the error's response: the given code and message for a bad request,
    /// `not_found` and `<resource> not found.`, or an opaque internal error.
    pub fn to_response(&self) -> (r: ErrorResponse)
        ensures
            match *self {
                AppError::BadRequest { code, message } => r.error.code == code && r.error.message@
                    == message@,
                AppError::NotFound { resource } => r.error.code@ == "not_found"@
                    && r.error.message@ == resource@ + " not found."@,
                AppError::Internal => r.error.code@ == "INTERNAL_SERVER_ERROR"@
                    && r.error.message@ == "internal server error"@,
            },
    {
        match self {
            AppError::BadRequest { code, message } => ErrorResponse {
                error: ErrorBody { code, message: message.clone() },
            },
            AppError::NotFound { resource } => {
                let mut m = owned(resource);
                push_str(&mut m, " not found.");
                ErrorResponse { error: ErrorBody { code: "not_found", message: m } }
            },
            AppError::Internal => ErrorResponse {
                error: ErrorBody {
                    code: "INTERNAL_SERVER_ERROR",
                    message: owned("internal server error"),
                },
            },
        }
    }
}

} // verus!
