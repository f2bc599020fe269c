use base64::Engine;
use sha2::Digest;
use vstd::prelude::*;

verus! {

/// The SHA-256 digest of a byte string.
pub uninterp spec fn sha256_of(b: Seq<u8>) -> Seq<u8>;

/// Base64url text of a byte string, without padding.
pub uninterp spec fn b64url_of(b: Seq<u8>) -> Seq<char>;

/// The UTF-8 bytes of a text.
pub open spec fn utf8(s: Seq<char>) -> Seq<u8> {
    vstd::utf8::encode_utf8(s)
}

/// `base64url(SHA-256(utf8(s)))`: the form of `ath` and of a JWK thumbprint.
pub open spec fn sha256_b64url_of(s: Seq<char>) -> Seq<char> {
    b64url_of(sha256_of(utf8(s)))
}

/// Relies on `sha2::Sha256::digest`: a digest of 32 bytes that depends on the input alone.
#[verifier::external_body]
pub(crate) fn sha256(b: &[u8]) -> (r: Vec<u8>)
    ensures
        r@ == sha256_of(b@),
        r@.len() == 32,
{
    sha2::Sha256::digest(b).to_vec()
}

/// The characters of the URL-safe base64 alphabet.
pub open spec fn is_b64url_char(c: char) -> bool {
    ('A' <= c && c <= 'Z') || ('a' <= c && c <= 'z') || ('0' <= c && c <= '9') || c == '-' || c
        == '_'
}

/// Relies on `base64`'s `URL_SAFE_NO_PAD` engine: the base64url text of the bytes, four
/// characters for each three bytes and no padding, from the URL-safe alphabet.
#[verifier::external_body]
pub(crate) fn b64url(b: &[u8]) -> (r: String)
    ensures
        r@ == b64url_of(b@),
        r@.len() == (4 * b@.len() + 2) / 3,
        forall|i: int| 0 <= i < r@.len() ==> is_b64url_char(#[trigger] r@[i]),
{
    base64::engine::general_purpose::URL_SAFE_NO_PAD.encode(b)
}

/// Base64url (no padding) of the SHA-256 digest of the UTF-8 bytes of `s`.
pub fn sha256_b64url(s: &str) -> (r: String)
    ensures
        r@ == sha256_b64url_of(s@),
        r@.len() == 43,
{
    let d = sha256(s.as_bytes());
    b64url(d.as_slice())
}

/// The hash under which a refresh token is stored: the raw SHA-256 of its UTF-8 bytes.
pub fn hash_refresh_token(token: &str) -> (r: Vec<u8>)
    ensures
        r@ == sha256_of(utf8(token@)),
        r@.len() == 32,
{
    sha256(token.as_bytes())
}

} // verus!
