//! Authentication core of a token service and a resource service whose access tokens are
//! sender-constrained with DPoP (RFC 9449).
//!
//! - `dpop`: verification of a request's DPoP proof (header, key binding, signature, claims,
//!   method, URI, issued-at window, `ath`, `nonce`) and what an accepted proof guarantees.
//! - `htu`: the URI a proof must name, and the normal form in which URIs are compared.
//! - `replay`: single-use claims of a proof's `jti`, with an in-memory store and its laws.
//! - `access`: verification of signed access tokens and their strict claim checks.
//! - `guard`: the checks of a protected request, in order.
//! - `issuer`: minting of access tokens and refresh tokens, and the token service.
//! - `session`: login sessions, whose key binding is written once.
//! - `token_endpoint`, `server_error`: the token endpoint's requests, responses and errors.
//! - `resources`, `api_error`, `id_codec`: request bodies, errors and public ids of the API.
//! - `config`: settings turned into policies.
//! - `jwt`, `json`: signing and signature checks of compact tokens, and reading JSON members.
//! - `digest`, `ids`, `text`: digests and encodings, UUIDs, and text helpers.
use vstd::prelude::*;

pub mod access;
pub mod api_error;
pub mod config;
pub mod digest;
pub mod dpop;
pub mod guard;
pub mod htu;
pub mod id_codec;
pub mod ids;
pub mod issuer;
pub mod json;
pub mod jwt;
pub mod replay;
pub mod resources;
pub mod server_error;
pub mod session;
pub mod text;
pub mod token_endpoint;
