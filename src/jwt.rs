use jsonwebtoken::{Algorithm, DecodingKey, EncodingKey, Header, Validation};
use serde_json::Value;
use std::collections::HashSet;
use vstd::prelude::*;

use crate::htu::opt_text;

verus! {

/// The signature algorithms this library uses.
#[derive(Clone, Copy, Debug, PartialEq, Eq)]
pub enum JwsAlgorithm {
    EdDSA,
}

/// The key a signature is checked against.
#[derive(Clone, Debug)]
pub enum JwtKey {
    /// An Ed25519 public key as SPKI PEM text.
    EdPem(String),
    /// An Ed25519 public key as the base64url `x` of a JWK.
    EdX(String),
}

pub enum JwtKeyView {
    EdPem(Seq<char>),
    EdX(Seq<char>),
}

impl View for JwtKey {
    type V = JwtKeyView;

    open spec fn view(&self) -> JwtKeyView {
        match self {
            JwtKey::EdPem(p) => JwtKeyView::EdPem(p@),
            JwtKey::EdX(x) => JwtKeyView::EdX(x@),
        }
    }
}

/// What `jsonwebtoken` is asked to check besides the signature.
#[derive(Clone, Debug)]
pub struct JwtChecks {
    pub algorithm: JwsAlgorithm,
    pub issuer: Option<String>,
    pub audience: Option<String>,
    pub validate_exp: bool,
    pub validate_nbf: bool,
    pub required_claims: Vec<String>,
}

pub struct JwtChecksView {
    pub algorithm: JwsAlgorithm,
    pub issuer: Option<Seq<char>>,
    pub audience: Option<Seq<char>>,
    pub validate_exp: bool,
    pub validate_nbf: bool,
    pub required_claims: Seq<Seq<char>>,
}

impl View for JwtChecks {
    type V = JwtChecksView;

    open spec fn view(&self) -> JwtChecksView {
        JwtChecksView {
            algorithm: self.algorithm,
            issuer: opt_text(self.issuer),
            audience: opt_text(self.audience),
            validate_exp: self.validate_exp,
            validate_nbf: self.validate_nbf,
            required_claims: self.required_claims@.map_values(|s: String| s@),
        }
    }
}

/// The JSON payload of a compact token that passes the checks under the key, or `None`.
pub uninterp spec fn verified_payload_of(
    token: Seq<char>,
    key: JwtKeyView,
    checks: JwtChecksView,
) -> Option<Seq<char>>;

/// Relies on `jsonwebtoken::DecodingKey::from_ed_pem` / `from_ed_components`, `Validation` and
/// `jsonwebtoken::decode`. With no time-based check the result depends on its arguments alone.
#[verifier::external_body]
pub(crate) fn verified_payload(token: &str, key: &JwtKey, checks: &JwtChecks) -> (r: Option<String>)
    requires
        !checks.validate_exp,
        !checks.validate_nbf,
    ensures
        opt_text(r) == verified_payload_of(token@, key@, checks@),
{
    let key = match key {
        JwtKey::EdPem(p) => DecodingKey::from_ed_pem(p.as_bytes()),
        JwtKey::EdX(x) => DecodingKey::from_ed_components(x),
    }.ok()?;
    let mut v = Validation::new(match checks.algorithm { JwsAlgorithm::EdDSA => Algorithm::EdDSA });
    v.validate_exp = checks.validate_exp;
    v.validate_nbf = checks.validate_nbf;
    v.required_spec_claims = checks.required_claims.iter().cloned().collect();
    v.iss = checks.issuer.clone().map(|i| HashSet::from([i]));
    v.aud = checks.audience.clone().map(|a| HashSet::from([a]));
    Some(jsonwebtoken::decode::<Value>(token, &key, &v).ok()?.claims.to_string())
}

/// Whether a PEM text holds an Ed25519 public key.
pub uninterp spec fn ed_public_pem_ok(pem: Seq<char>) -> bool;

/// Relies on `jsonwebtoken::DecodingKey::from_ed_pem`.
#[verifier::external_body]
pub(crate) fn ed_public_key_ok(pem: &str) -> (r: bool)
    ensures
        r == ed_public_pem_ok(pem@),
{
    DecodingKey::from_ed_pem(pem.as_bytes()).is_ok()
}

/// A member of the claims of a token to sign.
#[derive(Clone, Debug)]
pub enum ClaimValue {
    Text(String),
    Int(i64),
    /// An object of text members.
    Object(Vec<(String, String)>),
}

pub enum ClaimValueView {
    Text(Seq<char>),
    Int(i64),
    Object(Seq<(Seq<char>, Seq<char>)>),
}

impl View for ClaimValue {
    type V = ClaimValueView;

    open spec fn view(&self) -> ClaimValueView {
        match self {
            ClaimValue::Text(s) => ClaimValueView::Text(s@),
            ClaimValue::Int(n) => ClaimValueView::Int(*n),
            ClaimValue::Object(m) => ClaimValueView::Object(
                m@.map_values(|p: (String, String)| (p.0@, p.1@)),
            ),
        }
    }
}

pub open spec fn claims_view(c: Seq<(String, ClaimValue)>) -> Seq<(Seq<char>, ClaimValueView)> {
    c.map_values(|p: (String, ClaimValue)| (p.0@, p.1@))
}

/// The compact token that `jsonwebtoken::encode` makes of the claims with the private key of
/// a PKCS#8 PEM text, or `None` where the key is not valid for the algorithm.
pub uninterp spec fn signed_token_of(
    claims: Seq<(Seq<char>, ClaimValueView)>,
    pem: Seq<char>,
    alg: JwsAlgorithm,
) -> Option<Seq<char>>;

/// Relies on `jsonwebtoken::EncodingKey::from_ed_pem`, `Header::new` and
/// `jsonwebtoken::encode` on the claims as a JSON object. Ed25519 signatures are
/// deterministic, so the token depends on the arguments alone.
#[verifier::external_body]
pub(crate) fn sign_claims(claims: &Vec<(String, ClaimValue)>, pem: &str, alg: JwsAlgorithm) -> (r:
    Option<String>)
    ensures
        opt_text(r) == signed_token_of(claims_view(claims@), pem@, alg),
{
    let key = EncodingKey::from_ed_pem(pem.as_bytes()).ok()?;
    let member = |v: &ClaimValue| match v {
        ClaimValue::Text(s) => Value::from(s.clone()),
        ClaimValue::Int(n) => Value::from(*n),
        ClaimValue::Object(m) => Value::Object(m.iter().map(|(k, s)| (k.clone(), Value::from(s.clone()))).collect()),
    };
    let object = Value::Object(claims.iter().map(|(k, v)| (k.clone(), member(v))).collect());
    let header = Header::new(match alg { JwsAlgorithm::EdDSA => Algorithm::EdDSA });
    jsonwebtoken::encode(&header, &object, &key).ok()
}

/// Whether a PEM text holds an Ed25519 private key.
pub uninterp spec fn ed_private_pem_ok(pem: Seq<char>) -> bool;

/// Relies on `jsonwebtoken::EncodingKey::from_ed_pem`.
#[verifier::external_body]
pub(crate) fn ed_private_key_ok(pem: &str) -> (r: bool)
    ensures
        r == ed_private_pem_ok(pem@),
{
    EncodingKey::from_ed_pem(pem.as_bytes()).is_ok()
}

} // verus!
