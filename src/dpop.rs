use jsonwebtoken::jwk::{AlgorithmParameters, EllipticCurve};
use jsonwebtoken::Algorithm;
use vstd::prelude::*;

use crate::digest::{sha256_b64url, sha256_b64url_of};
use crate::htu::{build_expected_htu, expected_htu, normalized_htu, opt_str, opt_text, same_htu};
use crate::json::{opt_i64_member, opt_text_member, read_opt_i64, read_opt_text};
use crate::jwt::{verified_payload, verified_payload_of, JwsAlgorithm, JwtChecks, JwtChecksView, JwtKey, JwtKeyView};
use crate::text::{ascii_ci_eq, eq_ignore_ascii_case, owned, push_str};

verus! {

/// Policy knobs of the proof verifier.
#[derive(Clone, Copy, Debug)]
pub struct DpopPolicy {
    /// Whether a proof is required at all; when not, no proof is read.
    pub required: bool,
    /// Allowed clock skew, in seconds.
    pub iat_leeway_seconds: i64,
    /// Largest accepted age of a proof (`now - iat`), in seconds.
    pub max_age_seconds: i64,
    /// Whether the proof must carry `ath`, bound to the access token.
    pub require_ath: bool,
    /// Whether the proof must carry a `nonce`.
    pub require_nonce: bool,
    /// How long a proof's `jti` stays claimed, in seconds.
    pub replay_ttl_seconds: u64,
}

impl DpopPolicy {
    /// Windows are not negative: both come from unsigned settings.
    pub open spec fn wf(&self) -> bool {
        self.iat_leeway_seconds >= 0 && self.max_age_seconds >= 0
    }
}

/// What an accepted proof said.
#[derive(Clone, Debug)]
pub struct VerifiedDpop {
    pub jti: String,
    pub iat: i64,
    pub htm: String,
    pub htu: String,
    pub nonce: Option<String>,
}

pub struct VerifiedDpopView {
    pub jti: Seq<char>,
    pub iat: i64,
    pub htm: Seq<char>,
    pub htu: Seq<char>,
    pub nonce: Option<Seq<char>>,
}

impl View for VerifiedDpop {
    type V = VerifiedDpopView;

    open spec fn view(&self) -> VerifiedDpopView {
        VerifiedDpopView {
            jti: self.jti@,
            iat: self.iat,
            htm: self.htm@,
            htu: self.htu@,
            nonce: opt_text(self.nonce),
        }
    }
}

/// Why a proof was rejected.
#[derive(Clone, Copy, Debug, PartialEq, Eq)]
pub enum DpopError {
    MissingProof,
    InvalidJwt,
    MissingJwk,
    UnsupportedAlg,
    InvalidTyp,
    MissingClaim(ClaimName),
    MethodMismatch,
    UriMismatch,
    InvalidIat,
    AthMismatch,
    NonceRequired,
    JktMismatch,
    UnsupportedJwk,
    /// The proof's `jti` was already claimed within its time to live.
    Replayed,
    /// The replay store could not answer; the request is refused.
    ReplayUnavailable,
}

/// The claims a proof must carry.
#[derive(Clone, Copy, Debug, PartialEq, Eq)]
pub enum ClaimName {
    Htm,
    Htu,
    Iat,
    Jti,
    Ath,
}

impl ClaimName {
    /// The claim's name on the wire.
    pub fn as_str(&self) -> &'static str {
        match self {
            ClaimName::Htm => "htm",
            ClaimName::Htu => "htu",
            ClaimName::Iat => "iat",
            ClaimName::Jti => "jti",
            ClaimName::Ath => "ath",
        }
    }
}

/// The public key embedded in a proof's header, as far as the verifier reads it.
#[derive(Clone, Debug)]
pub enum ProofJwk {
    /// `kty = OKP`; `ed25519` tells whether `crv = Ed25519`.
    Okp { ed25519: bool, x: String },
    /// Any other key type.
    Other,
}

pub enum ProofJwkView {
    Okp { ed25519: bool, x: Seq<char> },
    Other,
}

impl View for ProofJwk {
    type V = ProofJwkView;

    open spec fn view(&self) -> ProofJwkView {
        match self {
            ProofJwk::Okp { ed25519, x } => ProofJwkView::Okp { ed25519: *ed25519, x: x@ },
            ProofJwk::Other => ProofJwkView::Other,
        }
    }
}

/// The JOSE header of a proof.
#[derive(Clone, Debug)]
pub struct JoseHeader {
    pub typ: Option<String>,
    /// Whether `alg` is `EdDSA`.
    pub eddsa: bool,
    pub jwk: Option<ProofJwk>,
}

pub struct JoseHeaderView {
    pub typ: Option<Seq<char>>,
    pub eddsa: bool,
    pub jwk: Option<ProofJwkView>,
}

pub open spec fn opt_jwk(j: Option<ProofJwk>) -> Option<ProofJwkView> {
    match j {
        Some(k) => Some(k@),
        None => None,
    }
}

impl View for JoseHeader {
    type V = JoseHeaderView;

    open spec fn view(&self) -> JoseHeaderView {
        JoseHeaderView { typ: opt_text(self.typ), eddsa: self.eddsa, jwk: opt_jwk(self.jwk) }
    }
}

/// The claims of a proof whose signature was checked.
#[derive(Clone, Debug)]
pub struct ProofClaims {
    pub htm: Option<String>,
    pub htu: Option<String>,
    pub iat: Option<i64>,
    pub jti: Option<String>,
    pub ath: Option<String>,
    pub nonce: Option<String>,
}

pub struct ProofClaimsView {
    pub htm: Option<Seq<char>>,
    pub htu: Option<Seq<char>>,
    pub iat: Option<i64>,
    pub jti: Option<Seq<char>>,
    pub ath: Option<Seq<char>>,
    pub nonce: Option<Seq<char>>,
}

impl View for ProofClaims {
    type V = ProofClaimsView;

    open spec fn view(&self) -> ProofClaimsView {
        ProofClaimsView {
            htm: opt_text(self.htm),
            htu: opt_text(self.htu),
            iat: self.iat,
            jti: opt_text(self.jti),
            ath: opt_text(self.ath),
            nonce: opt_text(self.nonce),
        }
    }
}

/// What the verifier reads of an HTTP request.
#[derive(Clone, Debug)]
pub struct ProofRequest {
    /// Each `DPoP` header of the request, `None` for a value that is not visible ASCII.
    pub dpop: Vec<Option<String>>,
    pub method: String,
    pub path: String,
    pub query: Option<String>,
    pub forwarded_proto: Option<String>,
    pub forwarded_host: Option<String>,
    pub host: Option<String>,
}

pub struct ProofRequestView {
    pub dpop: Seq<Option<Seq<char>>>,
    pub method: Seq<char>,
    pub path: Seq<char>,
    pub query: Option<Seq<char>>,
    pub forwarded_proto: Option<Seq<char>>,
    pub forwarded_host: Option<Seq<char>>,
    pub host: Option<Seq<char>>,
}

impl View for ProofRequest {
    type V = ProofRequestView;

    open spec fn view(&self) -> ProofRequestView {
        ProofRequestView {
            dpop: self.dpop@.map_values(|v: Option<String>| opt_text(v)),
            method: self.method@,
            path: self.path@,
            query: opt_text(self.query),
            forwarded_proto: opt_text(self.forwarded_proto),
            forwarded_host: opt_text(self.forwarded_host),
            host: opt_text(self.host),
        }
    }
}

/// The JOSE header that `jsonwebtoken` reads from a compact token, or `None` where it cannot.
pub uninterp spec fn jose_header_of(token: Seq<char>) -> Option<JoseHeaderView>;

/// Relies on `jsonwebtoken::decode_header`: the header depends on the token alone.
#[verifier::external_body]
fn decode_jose_header(token: &str) -> (r: Option<JoseHeader>)
    ensures
        match r {
            Some(h) => jose_header_of(token@) == Some(h@),
            None => jose_header_of(token@) is None,
        },
{
    let h = jsonwebtoken::decode_header(token).ok()?;
    let jwk = h.jwk.map(|k| match k.algorithm {
        AlgorithmParameters::OctetKeyPair(p) => ProofJwk::Okp {
            ed25519: matches!(p.curve, EllipticCurve::Ed25519),
            x: p.x,
        },
        _ => ProofJwk::Other,
    });
    Some(JoseHeader { typ: h.typ, eddsa: matches!(h.alg, Algorithm::EdDSA), jwk })
}

/// What a proof's signature check asks of `jsonwebtoken`: EdDSA, no issuer or audience, no
/// time-based check (the issued-at window is checked here), no required claim.
pub open spec fn proof_checks() -> JwtChecksView {
    JwtChecksView {
        algorithm: JwsAlgorithm::EdDSA,
        issuer: None,
        audience: None,
        validate_exp: false,
        validate_nbf: false,
        required_claims: Seq::empty(),
    }
}

fn proof_checks_exec() -> (r: JwtChecks)
    ensures
        r@ == proof_checks(),
        !r.validate_exp && !r.validate_nbf,
{
    let r = JwtChecks {
        algorithm: JwsAlgorithm::EdDSA,
        issuer: None,
        audience: None,
        validate_exp: false,
        validate_nbf: false,
        required_claims: Vec::new(),
    };
    assert(r@.required_claims =~= Seq::<Seq<char>>::empty());
    r
}

/// The claims of a proof payload, each read as an optional member of its type; `None` where
/// a member has another type.
pub open spec fn claims_in(json: Seq<char>) -> Option<ProofClaimsView> {
    let htm = opt_text_member(json, "htm"@);
    let htu = opt_text_member(json, "htu"@);
    let iat = opt_i64_member(json, "iat"@);
    let jti = opt_text_member(json, "jti"@);
    let ath = opt_text_member(json, "ath"@);
    let nonce = opt_text_member(json, "nonce"@);
    if htm is Err || htu is Err || iat is Err || jti is Err || ath is Err || nonce is Err {
        None
    } else {
        Some(
            ProofClaimsView {
                htm: htm->Ok_0,
                htu: htu->Ok_0,
                iat: iat->Ok_0,
                jti: jti->Ok_0,
                ath: ath->Ok_0,
                nonce: nonce->Ok_0,
            },
        )
    }
}

/// The claims of a compact token whose EdDSA signature checks against the Ed25519 public key
/// `x` (base64url), or `None` where the key, the signature or a claim's type is not valid.
pub open spec fn proof_claims_of(token: Seq<char>, x: Seq<char>) -> Option<ProofClaimsView> {
    match verified_payload_of(token, JwtKeyView::EdX(x), proof_checks()) {
        Some(json) => claims_in(json),
        None => None,
    }
}

/// Reads the claims of a proof payload.
pub fn read_proof_claims(json: &str) -> (r: Option<ProofClaims>)
    ensures
        match r {
            Some(c) => claims_in(json@) == Some(c@),
            None => claims_in(json@) is None,
        },
{
    let htm = read_opt_text(json, "htm");
    let htu = read_opt_text(json, "htu");
    let iat = read_opt_i64(json, "iat");
    let jti = read_opt_text(json, "jti");
    let ath = read_opt_text(json, "ath");
    let nonce = read_opt_text(json, "nonce");
    match (htm, htu, iat, jti, ath, nonce) {
        (Ok(htm), Ok(htu), Ok(iat), Ok(jti), Ok(ath), Ok(nonce)) => Some(
            ProofClaims { htm, htu, iat, jti, ath, nonce },
        ),
        _ => None,
    }
}

/// The claims of a proof signed by the key `x`.
fn decode_proof_claims(token: &str, x: &str) -> (r: Option<ProofClaims>)
    ensures
        match r {
            Some(c) => proof_claims_of(token@, x@) == Some(c@),
            None => proof_claims_of(token@, x@) is None,
        },
{
    let checks = proof_checks_exec();
    let key = JwtKey::EdX(owned(x));
    let payload = verified_payload(token, &key, &checks)?;
    read_proof_claims(payload.as_str())
}

/// Relies on `chrono::Utc::now`: the current time in Unix seconds, whatever it is.
#[verifier::external_body]
pub(crate) fn now_unix() -> i64 {
    chrono::Utc::now().timestamp()
}

/// The one proof a request carries: none is `MissingProof`, several or an unreadable one
/// is `InvalidJwt`.
pub open spec fn single_proof(dpop: Seq<Option<Seq<char>>>) -> Result<Seq<char>, DpopError> {
    if dpop.len() == 0 {
        Err(DpopError::MissingProof)
    } else if dpop.len() > 1 {
        Err(DpopError::InvalidJwt)
    } else {
        match dpop[0] {
            Some(p) => Ok(p),
            None => Err(DpopError::InvalidJwt),
        }
    }
}

pub open spec fn dpop_typ() -> Seq<char> {
    seq!['d', 'p', 'o', 'p', '+', 'j', 'w', 't']
}

/// The checks on a proof's header, in order; on success the embedded Ed25519 key `x`.
pub open spec fn header_key(h: Option<JoseHeaderView>) -> Result<Seq<char>, DpopError> {
    match h {
        None => Err(DpopError::InvalidJwt),
        Some(h) => match h.typ {
            None => Err(DpopError::InvalidTyp),
            Some(t) => if !ascii_ci_eq(t, dpop_typ()) {
                Err(DpopError::InvalidTyp)
            } else if !h.eddsa {
                Err(DpopError::UnsupportedAlg)
            } else {
                match h.jwk {
                    None => Err(DpopError::MissingJwk),
                    Some(ProofJwkView::Okp { ed25519, x }) => if ed25519 {
                        Ok(x)
                    } else {
                        Err(DpopError::UnsupportedJwk)
                    },
                    Some(ProofJwkView::Other) => Err(DpopError::UnsupportedJwk),
                }
            },
        },
    }
}

/// RFC 7638 canonical JSON of an Ed25519 public key: members `crv`, `kty`, `x` in that order,
/// no white space.
pub open spec fn canonical_jwk(x: Seq<char>) -> Seq<char> {
    "{\"crv\":\"Ed25519\",\"kty\":\"OKP\",\"x\":\""@ + x + "\"}"@
}

/// The JWK thumbprint of an Ed25519 public key.
pub open spec fn thumbprint_of(x: Seq<char>) -> Seq<char> {
    sha256_b64url_of(canonical_jwk(x))
}

/// Whether `iat` lies in the accepted window around `now`.
pub open spec fn iat_in_window(policy: DpopPolicy, iat: int, now: int) -> bool {
    &&& iat <= now + policy.iat_leeway_seconds
    &&& now - iat <= policy.max_age_seconds + policy.iat_leeway_seconds
}

/// The checks on a proof's claims, in order, for a request with method `method` whose expected
/// `htu` is `expected`.
pub open spec fn claims_outcome(
    policy: DpopPolicy,
    c: ProofClaimsView,
    method: Seq<char>,
    expected: Seq<char>,
    access_token: Option<Seq<char>>,
    now: int,
) -> Result<VerifiedDpopView, DpopError> {
    if c.htm is None {
        Err(DpopError::MissingClaim(ClaimName::Htm))
    } else if c.htu is None {
        Err(DpopError::MissingClaim(ClaimName::Htu))
    } else if c.iat is None {
        Err(DpopError::MissingClaim(ClaimName::Iat))
    } else if c.jti is None {
        Err(DpopError::MissingClaim(ClaimName::Jti))
    } else if !ascii_ci_eq(c.htm->0, method) {
        Err(DpopError::MethodMismatch)
    } else if normalized_htu(c.htu->0) != normalized_htu(expected) {
        Err(DpopError::UriMismatch)
    } else if !iat_in_window(policy, c.iat->0 as int, now) {
        Err(DpopError::InvalidIat)
    } else if policy.require_ath && (access_token is None || c.ath is None) {
        Err(DpopError::MissingClaim(ClaimName::Ath))
    } else if policy.require_ath && c.ath->0 != sha256_b64url_of(access_token->0) {
        Err(DpopError::AthMismatch)
    } else if policy.require_nonce && c.nonce is None {
        Err(DpopError::NonceRequired)
    } else {
        Ok(
            VerifiedDpopView {
                jti: c.jti->0,
                iat: c.iat->0,
                htm: c.htm->0,
                htu: c.htu->0,
                nonce: c.nonce,
            },
        )
    }
}

/// The outcome of verifying the proof of request `req` at time `now`.
pub open spec fn proof_outcome(
    policy: DpopPolicy,
    req: ProofRequestView,
    access_token: Option<Seq<char>>,
    expected_jkt: Option<Seq<char>>,
    public_base_url: Option<Seq<char>>,
    now: int,
) -> Result<Option<VerifiedDpopView>, DpopError> {
    if !policy.required {
        Ok(None)
    } else {
        match single_proof(req.dpop) {
            Err(e) => Err(e),
            Ok(p) => match header_key(jose_header_of(p)) {
                Err(e) => Err(e),
                Ok(x) => if expected_jkt is Some && thumbprint_of(x) != expected_jkt->0 {
                    Err(DpopError::JktMismatch)
                } else {
                    match proof_claims_of(p, x) {
                        None => Err(DpopError::InvalidJwt),
                        Some(c) => {
                            let expected = expected_htu(
                                public_base_url,
                                req.forwarded_proto,
                                req.forwarded_host,
                                req.host,
                                req.path,
                                req.query,
                            );
                            match claims_outcome(policy, c, req.method, expected, access_token, now) {
                                Ok(v) => Ok(Some(v)),
                                Err(e) => Err(e),
                            }
                        },
                    }
                },
            },
        }
    }
}

/// The one proof of a request.
pub fn select_proof(dpop: &Vec<Option<String>>) -> (r: Result<&String, DpopError>)
    ensures
        match r {
            Ok(p) => single_proof(dpop@.map_values(|v: Option<String>| opt_text(v))) == Ok::<
                Seq<char>,
                DpopError,
            >(p@),
            Err(e) => single_proof(dpop@.map_values(|v: Option<String>| opt_text(v))) == Err::<
                Seq<char>,
                DpopError,
            >(e),
        },
{
    if dpop.len() == 0 {
        return Err(DpopError::MissingProof);
    }
    if dpop.len() > 1 {
        return Err(DpopError::InvalidJwt);
    }
    match &dpop[0] {
        Some(p) => Ok(p),
        None => Err(DpopError::InvalidJwt),
    }
}

/// The checks on a decoded header: `typ` is `dpop+jwt` in any ASCII case, `alg` is `EdDSA`,
/// and the embedded key is an Ed25519 `OKP` key, whose `x` is returned.
pub fn check_proof_header(h: &Option<JoseHeader>) -> (r: Result<String, DpopError>)
    ensures
        match r {
            Ok(x) => header_key(
                match h {
                    Some(v) => Some(v@),
                    None => None,
                },
            ) == Ok::<Seq<char>, DpopError>(x@),
            Err(e) => header_key(
                match h {
                    Some(v) => Some(v@),
                    None => None,
                },
            ) == Err::<Seq<char>, DpopError>(e),
        },
{
    let expected_typ = "dpop+jwt";
    proof {
        reveal_strlit("dpop+jwt");
        assert(expected_typ@ =~= dpop_typ());
    }
    match h {
        None => Err(DpopError::InvalidJwt),
        Some(h) => match &h.typ {
            None => Err(DpopError::InvalidTyp),
            Some(t) => {
                if !eq_ignore_ascii_case(t.as_str(), expected_typ) {
                    Err(DpopError::InvalidTyp)
                } else if !h.eddsa {
                    Err(DpopError::UnsupportedAlg)
                } else {
                    match &h.jwk {
                        None => Err(DpopError::MissingJwk),
                        Some(ProofJwk::Okp { ed25519, x }) => {
                            if *ed25519 {
                                Ok(x.clone())
                            } else {
                                Err(DpopError::UnsupportedJwk)
                            }
                        },
                        Some(ProofJwk::Other) => Err(DpopError::UnsupportedJwk),
                    }
                }
            },
        },
    }
}

/// The JWK thumbprint of an embedded key; only Ed25519 `OKP` keys are supported.
pub fn compute_jwk_thumbprint(jwk: &ProofJwk) -> (r: Result<String, DpopError>)
    ensures
        match jwk@ {
            ProofJwkView::Okp { ed25519: true, x } => r is Ok && r->Ok_0@ == thumbprint_of(x)
                && r->Ok_0@.len() == 43,
            _ => r == Err::<String, DpopError>(DpopError::UnsupportedJwk),
        },
{
    match jwk {
        ProofJwk::Okp { ed25519, x } => {
            if !*ed25519 {
                return Err(DpopError::UnsupportedJwk);
            }
            let mut canonical = owned("{\"crv\":\"Ed25519\",\"kty\":\"OKP\",\"x\":\"");
            push_str(&mut canonical, x.as_str());
            push_str(&mut canonical, "\"}");
            Ok(sha256_b64url(canonical.as_str()))
        },
        ProofJwk::Other => Err(DpopError::UnsupportedJwk),
    }
}

/// `base64url(SHA-256(access_token))`, the value `ath` must hold.
pub fn compute_ath(access_token: &str) -> (r: String)
    ensures
        r@ == sha256_b64url_of(access_token@),
        r@.len() == 43,
{
    sha256_b64url(access_token)
}

/// The issued-at window: not later than `now + leeway`, not older than `max_age + leeway`.
pub fn check_iat(policy: DpopPolicy, iat: i64, now: i64) -> (r: Result<(), DpopError>)
    ensures
        r is Ok <==> iat_in_window(policy, iat as int, now as int),
        r is Err ==> r == Err::<(), DpopError>(DpopError::InvalidIat),
{
    let leeway = policy.iat_leeway_seconds as i128;
    if (iat as i128) > (now as i128) + leeway {
        return Err(DpopError::InvalidIat);
    }
    if (now as i128) - (iat as i128) > (policy.max_age_seconds as i128) + leeway {
        return Err(DpopError::InvalidIat);
    }
    Ok(())
}

pub open spec fn opt_string_ref(o: Option<&String>) -> Option<Seq<char>> {
    match o {
        Some(s) => Some(s@),
        None => None,
    }
}

/// The claims of a proof once the required ones are known to be there.
#[derive(Clone, Debug)]
pub struct DPopClaims {
    pub htm: String,
    pub htu: String,
    pub iat: i64,
    pub jti: String,
    pub ath: Option<String>,
    pub nonce: Option<String>,
}

/// The first required claim (`htm`, `htu`, `iat`, `jti`, in that order) that is missing.
pub open spec fn missing_claim(c: ProofClaimsView) -> Option<ClaimName> {
    if c.htm is None {
        Some(ClaimName::Htm)
    } else if c.htu is None {
        Some(ClaimName::Htu)
    } else if c.iat is None {
        Some(ClaimName::Iat)
    } else if c.jti is None {
        Some(ClaimName::Jti)
    } else {
        None
    }
}

/// Requires `htm`, `htu`, `iat` and `jti`; the first one missing is the error.
pub fn require_claims(claims: ProofClaims) -> (r: Result<DPopClaims, DpopError>)
    ensures
        match missing_claim(claims@) {
            Some(n) => r == Err::<DPopClaims, DpopError>(DpopError::MissingClaim(n)),
            None => r matches Ok(d) && Some(d.htm@) == claims@.htm && Some(d.htu@) == claims@.htu
                && Some(d.iat) == claims@.iat && Some(d.jti@) == claims@.jti && opt_text(d.ath)
                == claims@.ath && opt_text(d.nonce) == claims@.nonce,
        },
{
    let ProofClaims { htm, htu, iat, jti, ath, nonce } = claims;
    let htm = match htm {
        Some(v) => v,
        None => return Err(DpopError::MissingClaim(ClaimName::Htm)),
    };
    let htu = match htu {
        Some(v) => v,
        None => return Err(DpopError::MissingClaim(ClaimName::Htu)),
    };
    let iat = match iat {
        Some(v) => v,
        None => return Err(DpopError::MissingClaim(ClaimName::Iat)),
    };
    let jti = match jti {
        Some(v) => v,
        None => return Err(DpopError::MissingClaim(ClaimName::Jti)),
    };
    Ok(DPopClaims { htm, htu, iat, jti, ath, nonce })
}

/// The checks on the claims of a proof whose signature was verified, for a request with
/// method `method`, expected `htu` `expected`, bearer token `access_token`, at time `now`.
pub fn check_proof_claims(
    policy: DpopPolicy,
    claims: ProofClaims,
    method: &str,
    expected: &str,
    access_token: Option<&str>,
    now: i64,
) -> (r: Result<VerifiedDpop, DpopError>)
    ensures
        match r {
            Ok(v) => claims_outcome(policy, claims@, method@, expected@, opt_str(access_token), now as int)
                == Ok::<VerifiedDpopView, DpopError>(v@),
            Err(e) => claims_outcome(policy, claims@, method@, expected@, opt_str(access_token), now as int)
                == Err::<VerifiedDpopView, DpopError>(e),
        },
{
    let DPopClaims { htm, htu, iat, jti, ath, nonce } = require_claims(claims)?;
    if !eq_ignore_ascii_case(htm.as_str(), method) {
        return Err(DpopError::MethodMismatch);
    }
    if !same_htu(htu.as_str(), expected) {
        return Err(DpopError::UriMismatch);
    }
    check_iat(policy, iat, now)?;
    if policy.require_ath {
        let access = match access_token {
            Some(a) => a,
            None => return Err(DpopError::MissingClaim(ClaimName::Ath)),
        };
        let ath = match &ath {
            Some(a) => a,
            None => return Err(DpopError::MissingClaim(ClaimName::Ath)),
        };
        let expected_ath = compute_ath(access);
        if *ath != expected_ath {
            return Err(DpopError::AthMismatch);
        }
    }
    if policy.require_nonce && nonce.is_none() {
        return Err(DpopError::NonceRequired);
    }
    Ok(VerifiedDpop { jti, iat, htm, htu, nonce })
}

/// Verifies the proof of a request at time `now` (Unix seconds): header, key binding to
/// `expected_jkt`, signature, claims, method, URI, issued-at window, `ath` and `nonce`.
/// Replay is not checked here.
pub fn verify_proof_at(
    policy: DpopPolicy,
    request: &ProofRequest,
    access_token: Option<&str>,
    expected_jkt: Option<&str>,
    public_base_url: Option<&str>,
    now: i64,
) -> (r: Result<Option<VerifiedDpop>, DpopError>)
    ensures
        match r {
            Ok(Some(v)) => proof_outcome(policy, request@, opt_str(access_token), opt_str(expected_jkt), opt_str(public_base_url), now as int)
                == Ok::<Option<VerifiedDpopView>, DpopError>(Some(v@)),
            Ok(None) => proof_outcome(policy, request@, opt_str(access_token), opt_str(expected_jkt), opt_str(public_base_url), now as int)
                == Ok::<Option<VerifiedDpopView>, DpopError>(None),
            Err(e) => proof_outcome(policy, request@, opt_str(access_token), opt_str(expected_jkt), opt_str(public_base_url), now as int)
                == Err::<Option<VerifiedDpopView>, DpopError>(e),
        },
{
    if !policy.required {
        return Ok(None);
    }
    let proof = select_proof(&request.dpop)?;
    let header = decode_jose_header(proof.as_str());
    let x = check_proof_header(&header)?;
    if let Some(expected) = expected_jkt {
        let actual = compute_jwk_thumbprint(&ProofJwk::Okp { ed25519: true, x: x.clone() })?;
        if !crate::text::same_text(actual.as_str(), expected) {
            return Err(DpopError::JktMismatch);
        }
    }
    let claims = match decode_proof_claims(proof.as_str(), x.as_str()) {
        Some(c) => c,
        None => return Err(DpopError::InvalidJwt),
    };
    let expected_htu = build_expected_htu(
        public_base_url,
        as_opt_str(&request.forwarded_proto),
        as_opt_str(&request.forwarded_host),
        as_opt_str(&request.host),
        request.path.as_str(),
        as_opt_str(&request.query),
    );
    let v = check_proof_claims(
        policy,
        claims,
        request.method.as_str(),
        expected_htu.as_str(),
        access_token,
        now,
    )?;
    Ok(Some(v))
}

/// Borrows the text of an optional `String`.
pub fn as_opt_str(o: &Option<String>) -> (r: Option<&str>)
    ensures
        opt_str(r) == opt_text(*o),
{
    match o {
        Some(s) => Some(s.as_str()),
        None => None,
    }
}

/// Verifies the proof of a request against the current time; see `verify_proof_at`.
pub fn verify_proof(
    policy: DpopPolicy,
    request: &ProofRequest,
    access_token: Option<&str>,
    expected_jkt: Option<&str>,
    public_base_url: Option<&str>,
) -> (r: Result<Option<VerifiedDpop>, DpopError>)
    ensures
        exists|now: i64|
            match r {
                Ok(Some(v)) => proof_outcome(policy, request@, opt_str(access_token), opt_str(expected_jkt), opt_str(public_base_url), now as int)
                    == Ok::<Option<VerifiedDpopView>, DpopError>(Some(v@)),
                Ok(None) => proof_outcome(policy, request@, opt_str(access_token), opt_str(expected_jkt), opt_str(public_base_url), now as int)
                    == Ok::<Option<VerifiedDpopView>, DpopError>(None),
                Err(e) => proof_outcome(policy, request@, opt_str(access_token), opt_str(expected_jkt), opt_str(public_base_url), now as int)
                    == Err::<Option<VerifiedDpopView>, DpopError>(e),
            },
{
    let now = now_unix();
    verify_proof_at(policy, request, access_token, expected_jkt, public_base_url, now)
}

/// The proof text, embedded key and signed claims behind an accepted outcome.
pub open spec fn accepted_parts(req: ProofRequestView) -> (Seq<char>, Seq<char>, ProofClaimsView) {
    let p = single_proof(req.dpop)->Ok_0;
    let x = header_key(jose_header_of(p))->Ok_0;
    (p, x, proof_claims_of(p, x)->0)
}

/// An accepted proof carries a signature that checks against its embedded key, a method equal
/// to the request's up to ASCII case, an `htu` that normalises to the request's expected URI,
/// and an `iat` no further than `max_age + leeway` from `now`.
pub proof fn lemma_accepted_proof_matches_request(
    policy: DpopPolicy,
    req: ProofRequestView,
    access_token: Option<Seq<char>>,
    expected_jkt: Option<Seq<char>>,
    public_base_url: Option<Seq<char>>,
    now: int,
)
    requires
        policy.wf(),
        proof_outcome(policy, req, access_token, expected_jkt, public_base_url, now) is Ok,
        proof_outcome(policy, req, access_token, expected_jkt, public_base_url, now)->Ok_0 is Some,
    ensures
        ({
            let v = proof_outcome(policy, req, access_token, expected_jkt, public_base_url, now)->Ok_0->0;
            let (p, x, c) = accepted_parts(req);
            &&& single_proof(req.dpop) == Ok::<Seq<char>, DpopError>(p)
            &&& header_key(jose_header_of(p)) == Ok::<Seq<char>, DpopError>(x)
            &&& proof_claims_of(p, x) == Some(c)
            &&& c.htm == Some(v.htm) && ascii_ci_eq(v.htm, req.method)
            &&& c.htu == Some(v.htu) && normalized_htu(v.htu) == normalized_htu(
                expected_htu(
                    public_base_url,
                    req.forwarded_proto,
                    req.forwarded_host,
                    req.host,
                    req.path,
                    req.query,
                ),
            )
            &&& c.iat == Some(v.iat)
            &&& -(policy.max_age_seconds + policy.iat_leeway_seconds) <= now - v.iat
                <= policy.max_age_seconds + policy.iat_leeway_seconds
        }),
{
}

/// Where the access token names a key thumbprint, an accepted proof is signed by a key with
/// exactly that thumbprint.
pub proof fn lemma_accepted_proof_has_bound_key(
    policy: DpopPolicy,
    req: ProofRequestView,
    access_token: Option<Seq<char>>,
    jkt: Seq<char>,
    public_base_url: Option<Seq<char>>,
    now: int,
)
    requires
        proof_outcome(policy, req, access_token, Some(jkt), public_base_url, now) is Ok,
        proof_outcome(policy, req, access_token, Some(jkt), public_base_url, now)->Ok_0 is Some,
    ensures
        ({
            let (p, x, c) = accepted_parts(req);
            &&& header_key(jose_header_of(p)) == Ok::<Seq<char>, DpopError>(x)
            &&& proof_claims_of(p, x) == Some(c)
            &&& thumbprint_of(x) == jkt
        }),
{
}

/// Under a policy that requires `ath`, an accepted proof was presented with an access token
/// `A` and carries `ath = base64url(SHA-256(A))`.
pub proof fn lemma_accepted_proof_binds_access_token(
    policy: DpopPolicy,
    req: ProofRequestView,
    access_token: Option<Seq<char>>,
    expected_jkt: Option<Seq<char>>,
    public_base_url: Option<Seq<char>>,
    now: int,
)
    requires
        policy.require_ath,
        proof_outcome(policy, req, access_token, expected_jkt, public_base_url, now) is Ok,
        proof_outcome(policy, req, access_token, expected_jkt, public_base_url, now)->Ok_0 is Some,
    ensures
        ({
            let (p, x, c) = accepted_parts(req);
            &&& proof_claims_of(p, x) == Some(c)
            &&& access_token is Some
            &&& c.ath == Some(sha256_b64url_of(access_token->0))
        }),
{
}

} // verus!
