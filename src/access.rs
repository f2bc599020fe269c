use vstd::prelude::*;

use crate::dpop::DpopPolicy;
use crate::htu::opt_text;
use crate::ids::{parse_uuid, uuid_value_of};
use crate::json::{
    json_object, json_object_of, json_text, json_text_items, json_text_items_of, json_text_of,
    json_u64, json_u64_of, json_unset, json_unset_of, opt_text_member, opt_texts,
    opt_u64_member, read_opt_text, read_opt_u64,
};
use crate::jwt::{ed_public_key_ok, ed_public_pem_ok, verified_payload, verified_payload_of, JwsAlgorithm, JwtChecks, JwtChecksView, JwtKey, JwtKeyView};
use crate::text::{blank, is_blank, owned};

verus! {

/// Why an access token was refused.
#[derive(Clone, Copy, Debug, PartialEq, Eq)]
pub enum AccessJwtError {
    /// Signature, format, issuer or audience check of the token failed, or a claim has the
    /// wrong type.
    Jwt,
    /// `exp` lies before `now - leeway`.
    Expired,
    /// `nbf` lies after `now + leeway`.
    NotYetValid,
    MissingOrInvalidAud,
    EmptyClaim(RequiredClaim),
    InvalidSubUuid,
}

impl AccessJwtError {
    /// The text of the error.
    pub fn message(&self) -> (r: &'static str)
        ensures
            r@ == match *self {
                AccessJwtError::Jwt => "jwt verification failed"@,
                AccessJwtError::Expired => "token expired"@,
                AccessJwtError::NotYetValid => "token not yet valid"@,
                AccessJwtError::MissingOrInvalidAud => "missing or invalid 'aud' claim"@,
                AccessJwtError::EmptyClaim(RequiredClaim::Iss) => "empty 'iss' claim"@,
                AccessJwtError::EmptyClaim(RequiredClaim::Sub) => "empty 'sub' claim"@,
                AccessJwtError::EmptyClaim(RequiredClaim::Exp) => "empty 'exp' claim"@,
                AccessJwtError::InvalidSubUuid => "invalid 'sub' (expected UUID)"@,
            },
    {
        match self {
            AccessJwtError::Jwt => "jwt verification failed",
            AccessJwtError::Expired => "token expired",
            AccessJwtError::NotYetValid => "token not yet valid",
            AccessJwtError::MissingOrInvalidAud => "missing or invalid 'aud' claim",
            AccessJwtError::EmptyClaim(RequiredClaim::Iss) => "empty 'iss' claim",
            AccessJwtError::EmptyClaim(RequiredClaim::Sub) => "empty 'sub' claim",
            AccessJwtError::EmptyClaim(RequiredClaim::Exp) => "empty 'exp' claim",
            AccessJwtError::InvalidSubUuid => "invalid 'sub' (expected UUID)",
        }
    }
}

/// The claims that must not be empty.
#[derive(Clone, Copy, Debug, PartialEq, Eq)]
pub enum RequiredClaim {
    Iss,
    Sub,
    Exp,
}

/// The `aud` claim: a string, an array (each member a string or not), or anything else.
#[derive(Clone, Debug)]
pub enum Audience {
    One(String),
    Many(Vec<Option<String>>),
    Other,
}

/// The `cnf` claim.
#[derive(Clone, Debug)]
pub struct CnfClaim {
    pub jkt: Option<String>,
}

/// The claims of a signed access token.
#[derive(Clone, Debug)]
pub struct AccessTokenClaims {
    pub iss: String,
    pub aud: Audience,
    pub sub: String,
    pub exp: u64,
    pub nbf: Option<u64>,
    pub jti: Option<String>,
    pub scope: Option<String>,
    pub roles: Option<Vec<String>>,
    pub cnf: Option<CnfClaim>,
}

/// An access token that passed every check, in the form the application uses.
#[derive(Clone, Debug)]
pub struct VerifiedAccessToken {
    /// The subject, a UUID as its 128-bit value.
    pub user_id: u128,
    pub jti: Option<String>,
    pub scope: Option<String>,
    pub roles: Option<Vec<String>>,
    pub cnf_jkt: Option<String>,
}

/// The authenticated context handed to request handlers.
#[derive(Clone, Debug)]
pub struct AuthCtx {
    pub user_id: u128,
    pub scopes: Vec<String>,
    pub roles: Vec<String>,
    pub jti: Option<String>,
    pub dpop_jkt: Option<String>,
}

impl AuthCtx {
    pub fn new(user_id: u128) -> (r: Self)
        ensures
            r.user_id == user_id,
            r.scopes@.len() == 0,
            r.roles@.len() == 0,
            r.jti is None,
            r.dpop_jkt is None,
    {
        AuthCtx { user_id, scopes: Vec::new(), roles: Vec::new(), jti: None, dpop_jkt: None }
    }
}

/// An `aud` that names at least one audience: a non-blank string, or an array with a
/// non-blank string member.
pub open spec fn aud_valid(aud: Audience) -> bool {
    match aud {
        Audience::One(s) => !blank(s@),
        Audience::Many(v) => exists|i: int|
            0 <= i < v@.len() && (#[trigger] v@[i]) is Some && !blank(v@[i]->0@),
        Audience::Other => false,
    }
}

/// Whether `aud` is present and names an audience.
pub fn aud_is_present_and_valid(aud: &Audience) -> (r: bool)
    ensures
        r == aud_valid(*aud),
{
    match aud {
        Audience::One(s) => !is_blank(s.as_str()),
        Audience::Many(v) => {
            let mut i: usize = 0;
            while i < v.len()
                invariant
                    i <= v.len(),
                    *aud == Audience::Many(*v),
                    forall|j: int|
                        0 <= j < i ==> !((#[trigger] v@[j]) is Some && !blank(v@[j]->0@)),
                decreases v.len() - i,
            {
                if let Some(s) = &v[i] {
                    if !is_blank(s.as_str()) {
                        assert(v@[i as int] is Some && !blank(v@[i as int]->0@));
                        return true;
                    }
                }
                i += 1;
            }
            false
        },
        Audience::Other => false,
    }
}

/// The strict checks on decoded claims, in order: `iss`, `sub` and `exp` not empty, `aud`
/// present and valid, `sub` a UUID.
pub open spec fn strict_outcome(c: AccessTokenClaims) -> Result<(), AccessJwtError> {
    if blank(c.iss@) {
        Err(AccessJwtError::EmptyClaim(RequiredClaim::Iss))
    } else if blank(c.sub@) {
        Err(AccessJwtError::EmptyClaim(RequiredClaim::Sub))
    } else if c.exp == 0 {
        Err(AccessJwtError::EmptyClaim(RequiredClaim::Exp))
    } else if !aud_valid(c.aud) {
        Err(AccessJwtError::MissingOrInvalidAud)
    } else if uuid_value_of(c.sub@) is None {
        Err(AccessJwtError::InvalidSubUuid)
    } else {
        Ok(())
    }
}

/// Applies the strict checks to decoded claims and returns them unchanged when they pass.
pub fn check_access_claims(claims: AccessTokenClaims) -> (r: Result<
    AccessTokenClaims,
    AccessJwtError,
>)
    ensures
        match r {
            Ok(c) => c == claims && strict_outcome(claims) is Ok,
            Err(e) => strict_outcome(claims) == Err::<(), AccessJwtError>(e),
        },
{
    if is_blank(claims.iss.as_str()) {
        return Err(AccessJwtError::EmptyClaim(RequiredClaim::Iss));
    }
    if is_blank(claims.sub.as_str()) {
        return Err(AccessJwtError::EmptyClaim(RequiredClaim::Sub));
    }
    if claims.exp == 0 {
        return Err(AccessJwtError::EmptyClaim(RequiredClaim::Exp));
    }
    if !aud_is_present_and_valid(&claims.aud) {
        return Err(AccessJwtError::MissingOrInvalidAud);
    }
    if parse_uuid(claims.sub.as_str()).is_none() {
        return Err(AccessJwtError::InvalidSubUuid);
    }
    Ok(claims)
}

pub open spec fn cnf_jkt_of(cnf: Option<CnfClaim>) -> Option<String> {
    match cnf {
        Some(c) => c.jkt,
        None => None,
    }
}

/// The application's form of claims that passed the strict checks.
pub fn to_verified(claims: AccessTokenClaims) -> (r: Result<VerifiedAccessToken, AccessJwtError>)
    ensures
        match r {
            Ok(v) => uuid_value_of(claims.sub@) == Some(v.user_id) && v.jti == claims.jti
                && v.scope == claims.scope && v.roles == claims.roles && v.cnf_jkt == cnf_jkt_of(
                claims.cnf,
            ),
            Err(e) => uuid_value_of(claims.sub@) is None && e == AccessJwtError::InvalidSubUuid,
        },
{
    let user_id = match parse_uuid(claims.sub.as_str()) {
        Some(u) => u,
        None => return Err(AccessJwtError::InvalidSubUuid),
    };
    let cnf_jkt = match claims.cnf {
        Some(c) => c.jkt,
        None => None,
    };
    Ok(VerifiedAccessToken {
        user_id,
        jti: claims.jti,
        scope: claims.scope,
        roles: claims.roles,
        cnf_jkt,
    })
}


/// The checks `jsonwebtoken` makes of an access token: EdDSA, the issuer and the audience;
/// the time window and the required claims are checked here.
pub open spec fn access_checks(issuer: Seq<char>, audience: Seq<char>) -> JwtChecksView {
    JwtChecksView {
        algorithm: JwsAlgorithm::EdDSA,
        issuer: Some(issuer),
        audience: Some(audience),
        validate_exp: false,
        validate_nbf: false,
        required_claims: Seq::empty(),
    }
}

/// `aud` of a payload names an audience: a non-blank string, or an array with a non-blank
/// string member.
pub open spec fn aud_valid_in(p: Seq<char>) -> bool {
    match json_text_of(p, "aud"@) {
        Some(s) => !blank(s),
        None => match json_text_items_of(p, "aud"@) {
            Some(items) => exists|i: int|
                0 <= i < items.len() && (#[trigger] items[i]) is Some && !blank(items[i]->0),
            None => false,
        },
    }
}

pub open spec fn roles_ok(p: Seq<char>) -> bool {
    json_unset_of(p, "roles"@) || (json_text_items_of(p, "roles"@) matches Some(items) && forall|
        i: int,
    | 0 <= i < items.len() ==> (#[trigger] items[i]) is Some)
}

pub open spec fn cnf_ok(p: Seq<char>) -> bool {
    json_unset_of(p, "cnf"@) || (json_object_of(p, "cnf"@) matches Some(o) && opt_text_member(
        o,
        "jkt"@,
    ) is Ok)
}

/// The payload has every member an access token's claims are read from, each of its type.
pub open spec fn readable(p: Seq<char>) -> bool {
    &&& json_text_of(p, "iss"@) is Some
    &&& json_text_of(p, "sub"@) is Some
    &&& json_u64_of(p, "exp"@) is Some
    &&& opt_u64_member(p, "nbf"@) is Ok
    &&& opt_text_member(p, "jti"@) is Ok
    &&& opt_text_member(p, "scope"@) is Ok
    &&& roles_ok(p)
    &&& cnf_ok(p)
}

/// The key thumbprint a payload binds the token to.
pub open spec fn cnf_jkt_in(p: Seq<char>) -> Option<Seq<char>> {
    if json_unset_of(p, "cnf"@) {
        None
    } else {
        opt_text_member(json_object_of(p, "cnf"@)->0, "jkt"@)->Ok_0
    }
}

/// Claims read from a payload: their fields are the payload's members.
pub open spec fn claims_match(p: Seq<char>, c: AccessTokenClaims) -> bool {
    &&& Some(c.iss@) == json_text_of(p, "iss"@)
    &&& Some(c.sub@) == json_text_of(p, "sub"@)
    &&& Some(c.exp) == json_u64_of(p, "exp"@)
    &&& Ok::<Option<u64>, ()>(c.nbf) == opt_u64_member(p, "nbf"@)
    &&& Ok::<Option<Seq<char>>, ()>(opt_text(c.jti)) == opt_text_member(p, "jti"@)
    &&& Ok::<Option<Seq<char>>, ()>(opt_text(c.scope)) == opt_text_member(p, "scope"@)
    &&& aud_match(p, c.aud)
    &&& aud_valid(c.aud) == aud_valid_in(p)
    &&& roles_match(p, c.roles)
    &&& cnf_match(p, c.cnf)
    &&& opt_text(cnf_jkt_of(c.cnf)) == cnf_jkt_in(p)
}

/// The `aud` read from a payload: a string as `One`, an array as `Many` with each item where
/// it is a string, anything else as `Other`.
pub open spec fn aud_match(p: Seq<char>, a: Audience) -> bool {
    match a {
        Audience::One(s) => json_text_of(p, "aud"@) == Some(s@),
        Audience::Many(v) => json_text_of(p, "aud"@) is None && json_text_items_of(p, "aud"@)
            == Some(opt_texts(v@)),
        Audience::Other => json_text_of(p, "aud"@) is None && json_text_items_of(p, "aud"@) is None,
    }
}

pub open spec fn texts(v: Seq<String>) -> Seq<Option<Seq<char>>> {
    v.map_values(|s: String| Some(s@))
}

/// The `roles` read from a payload: none where the member is unset, else its strings.
pub open spec fn roles_match(p: Seq<char>, r: Option<Vec<String>>) -> bool {
    if json_unset_of(p, "roles"@) {
        r is None
    } else {
        r matches Some(w) && json_text_items_of(p, "roles"@) == Some(texts(w@))
    }
}

/// The `cnf` read from a payload: none where the member is unset, else the object with its
/// `jkt`.
pub open spec fn cnf_match(p: Seq<char>, c: Option<CnfClaim>) -> bool {
    if json_unset_of(p, "cnf"@) {
        c is None
    } else {
        c matches Some(cc) && json_object_of(p, "cnf"@) matches Some(o) && opt_text_member(o, "jkt"@)
            == Ok::<Option<Seq<char>>, ()>(opt_text(cc.jkt))
    }
}

/// The application's form of the claims of a payload: its `jti`, `scope` and `roles`.
pub open spec fn verified_fields(p: Seq<char>, v: VerifiedAccessToken) -> bool {
    &&& Ok::<Option<Seq<char>>, ()>(opt_text(v.jti)) == opt_text_member(p, "jti"@)
    &&& Ok::<Option<Seq<char>>, ()>(opt_text(v.scope)) == opt_text_member(p, "scope"@)
    &&& roles_match(p, v.roles)
}

/// Signature, issuer, audience, member types, then the time window with the leeway.
pub open spec fn decoded_stage(
    key_pem: Seq<char>,
    issuer: Seq<char>,
    audience: Seq<char>,
    leeway: u64,
    token: Seq<char>,
    now: int,
) -> Result<Seq<char>, AccessJwtError> {
    match verified_payload_of(token, JwtKeyView::EdPem(key_pem), access_checks(issuer, audience)) {
        None => Err(AccessJwtError::Jwt),
        Some(p) => if !readable(p) {
            Err(AccessJwtError::Jwt)
        } else if (json_u64_of(p, "exp"@)->0 as int) < now - leeway {
            Err(AccessJwtError::Expired)
        } else if opt_u64_member(p, "nbf"@)->Ok_0 matches Some(n) && n as int > now + leeway {
            Err(AccessJwtError::NotYetValid)
        } else {
            Ok(p)
        },
    }
}

/// The strict checks on a readable payload, in order.
pub open spec fn strict_in(p: Seq<char>) -> Result<(), AccessJwtError> {
    if blank(json_text_of(p, "iss"@)->0) {
        Err(AccessJwtError::EmptyClaim(RequiredClaim::Iss))
    } else if blank(json_text_of(p, "sub"@)->0) {
        Err(AccessJwtError::EmptyClaim(RequiredClaim::Sub))
    } else if json_u64_of(p, "exp"@)->0 == 0 {
        Err(AccessJwtError::EmptyClaim(RequiredClaim::Exp))
    } else if !aud_valid_in(p) {
        Err(AccessJwtError::MissingOrInvalidAud)
    } else if uuid_value_of(json_text_of(p, "sub"@)->0) is None {
        Err(AccessJwtError::InvalidSubUuid)
    } else {
        Ok(())
    }
}

/// The outcome of verifying an access token at `now`: its subject's UUID value and the key
/// thumbprint it is bound to, or why it is refused.
pub open spec fn access_outcome(
    key_pem: Seq<char>,
    issuer: Seq<char>,
    audience: Seq<char>,
    leeway: u64,
    token: Seq<char>,
    now: int,
) -> Result<(u128, Option<Seq<char>>), AccessJwtError> {
    match decoded_stage(key_pem, issuer, audience, leeway, token, now) {
        Err(e) => Err(e),
        Ok(p) => match strict_in(p) {
            Err(e) => Err(e),
            Ok(_) => Ok((uuid_value_of(json_text_of(p, "sub"@)->0)->0, cnf_jkt_in(p))),
        },
    }
}

/// The `aud` claim of a payload.
fn read_audience(json: &str) -> (r: Audience)
    ensures
        aud_valid(r) == aud_valid_in(json@),
        aud_match(json@, r),
{
    match json_text(json, "aud") {
        Some(a) => Audience::One(a),
        None => match json_text_items(json, "aud") {
            Some(items) => {
                let r = Audience::Many(items);
                proof {
                    let v = items@;
                    let o = opt_texts(v);
                    if aud_valid(r) {
                        let i = choose|i: int| 0 <= i < v.len() && (#[trigger] v[i]) is Some && !blank(v[i]->0@);
                        assert(o[i] is Some && !blank(o[i]->0));
                    }
                    if aud_valid_in(json@) {
                        let i = choose|i: int| 0 <= i < o.len() && (#[trigger] o[i]) is Some && !blank(o[i]->0);
                        assert(v[i] is Some && !blank(v[i]->0@));
                    }
                }
                r
            },
            None => Audience::Other,
        },
    }
}

/// The `roles` claim: absent, or an array of strings.
fn read_roles(json: &str) -> (r: Result<Option<Vec<String>>, ()>)
    ensures
        r is Ok <==> roles_ok(json@),
        r matches Ok(v) ==> roles_match(json@, v),
{
    if json_unset(json, "roles") {
        return Ok(None);
    }
    match json_text_items(json, "roles") {
        Some(items) => {
            let ghost iv = items@;
            let ghost o = opt_texts(items@);
            match all_strings(items) {
                Some(w) => {
                    proof {
                        assert forall|i: int| 0 <= i < o.len() implies (#[trigger] o[i]) is Some by {
                            assert(iv[i] == Some(w@[i]));
                        }
                        assert(o =~= texts(w@));
                    }
                    Ok(Some(w))
                },
                None => {
                    proof {
                        let i = choose|i: int| 0 <= i < items@.len() && (#[trigger] items@[i]) is None;
                        assert(o[i] is None);
                    }
                    Err(())
                },
            }
        },
        None => Err(()),
    }
}

/// The `cnf` claim: absent, or an object whose `jkt` is absent or a string.
fn read_cnf(json: &str) -> (r: Result<Option<CnfClaim>, ()>)
    ensures
        r is Ok <==> cnf_ok(json@),
        r matches Ok(c) ==> opt_text(cnf_jkt_of(c)) == cnf_jkt_in(json@) && cnf_match(json@, c),
{
    if json_unset(json, "cnf") {
        return Ok(None);
    }
    match json_object(json, "cnf") {
        Some(o) => match read_opt_text(o.as_str(), "jkt") {
            Ok(jkt) => Ok(Some(CnfClaim { jkt })),
            Err(_) => Err(()),
        },
        None => Err(()),
    }
}

/// The claims of an access token payload; `None` where a member is missing or of another type.
pub fn read_access_claims(json: &str) -> (r: Option<AccessTokenClaims>)
    ensures
        r is Some <==> readable(json@),
        r matches Some(c) ==> claims_match(json@, c),
{
    let iss = json_text(json, "iss");
    let sub = json_text(json, "sub");
    let exp = json_u64(json, "exp");
    let nbf = read_opt_u64(json, "nbf");
    let jti = read_opt_text(json, "jti");
    let scope = read_opt_text(json, "scope");
    let roles = read_roles(json);
    let cnf = read_cnf(json);
    match (iss, sub, exp, nbf, jti, scope, roles, cnf) {
        (Some(iss), Some(sub), Some(exp), Ok(nbf), Ok(jti), Ok(scope), Ok(roles), Ok(cnf)) => {
            Some(AccessTokenClaims { iss, aud: read_audience(json), sub, exp, nbf, jti, scope, roles, cnf })
        },
        _ => None,
    }
}

/// The members of a list that are all strings, or `None` where one is not.
pub fn all_strings(v: Vec<Option<String>>) -> (r: Option<Vec<String>>)
    ensures
        match r {
            Some(w) => w@.len() == v@.len() && forall|i: int|
                0 <= i < v@.len() ==> v@[i] == Some(#[trigger] w@[i]),
            None => exists|i: int| 0 <= i < v@.len() && (#[trigger] v@[i]) is None,
        },
{
    let mut w: Vec<String> = Vec::new();
    let mut i: usize = 0;
    while i < v.len()
        invariant
            i <= v.len(),
            w@.len() == i,
            forall|j: int| 0 <= j < i ==> v@[j] == Some(#[trigger] w@[j]),
        decreases v.len() - i,
    {
        match &v[i] {
            Some(s) => w.push(s.clone()),
            None => return None,
        }
        i += 1;
    }
    Some(w)
}

/// Verifier of EdDSA access tokens, with the proof policy of the resource server. Its key
/// material is never printed.
pub struct AuthService {
    public_key_pem: String,
    issuer: String,
    audience: String,
    leeway_seconds: u64,
    dpop_policy: DpopPolicy,
    public_base_url: Option<String>,
}

impl AuthService {
    /// A verifier for tokens signed by the key of `access_public_key_pem`, issued by `issuer`
    /// for `audience`, with the given clock leeway; `None` where the PEM text holds no Ed25519
    /// public key.
    pub fn new(
        access_public_key_pem: &str,
        issuer: &str,
        audience: &str,
        leeway_seconds: u64,
        dpop_policy: DpopPolicy,
        public_base_url: Option<String>,
    ) -> (r: Option<Self>)
        ensures
            r is Some <==> ed_public_pem_ok(access_public_key_pem@),
            r matches Some(s) ==> s.key_pem() == access_public_key_pem@ && s.issuer_view()
                == issuer@ && s.audience_view() == audience@ && s.leeway() == leeway_seconds
                && s.policy() == dpop_policy && s.base_url() == opt_text(public_base_url),
    {
        if !ed_public_key_ok(access_public_key_pem) {
            return None;
        }
        Some(AuthService {
            public_key_pem: owned(access_public_key_pem),
            issuer: owned(issuer),
            audience: owned(audience),
            leeway_seconds,
            dpop_policy,
            public_base_url,
        })
    }

    pub closed spec fn key_pem(&self) -> Seq<char> {
        self.public_key_pem@
    }

    pub closed spec fn issuer_view(&self) -> Seq<char> {
        self.issuer@
    }

    pub closed spec fn audience_view(&self) -> Seq<char> {
        self.audience@
    }

    pub closed spec fn leeway(&self) -> u64 {
        self.leeway_seconds
    }

    pub closed spec fn policy(&self) -> DpopPolicy {
        self.dpop_policy
    }

    pub closed spec fn base_url(&self) -> Option<Seq<char>> {
        opt_text(self.public_base_url)
    }

    /// The stage of `decoded_stage` for this verifier.
    pub open spec fn decoded(&self, token: Seq<char>, now: int) -> Result<Seq<char>, AccessJwtError> {
        decoded_stage(self.key_pem(), self.issuer_view(), self.audience_view(), self.leeway(), token, now)
    }

    /// The outcome of `access_outcome` for this verifier.
    pub open spec fn outcome(&self, token: Seq<char>, now: int) -> Result<(u128, Option<Seq<char>>), AccessJwtError> {
        access_outcome(self.key_pem(), self.issuer_view(), self.audience_view(), self.leeway(), token, now)
    }

    fn checks(&self) -> (r: JwtChecks)
        ensures
            r@ == access_checks(self.issuer_view(), self.audience_view()),
            !r.validate_exp && !r.validate_nbf,
    {
        let r = JwtChecks {
            algorithm: JwsAlgorithm::EdDSA,
            issuer: Some(self.issuer.clone()),
            audience: Some(self.audience.clone()),
            validate_exp: false,
            validate_nbf: false,
            required_claims: Vec::new(),
        };
        assert(r@.required_claims =~= Seq::<Seq<char>>::empty());
        r
    }

    /// Verifies the signature, issuer and audience of a token, reads its claims, and checks
    /// `exp` and `nbf` against `now` with the leeway.
    pub fn verify_at(&self, token: &str, now: i64) -> (r: Result<AccessTokenClaims, AccessJwtError>)
        ensures
            match r {
                Ok(c) => self.decoded(token@, now as int) matches Ok(p) && claims_match(p, c),
                Err(e) => self.decoded(token@, now as int) == Err::<Seq<char>, AccessJwtError>(e),
            },
    {
        let key = JwtKey::EdPem(self.public_key_pem.clone());
        let checks = self.checks();
        let payload = match verified_payload(token, &key, &checks) {
            Some(p) => p,
            None => return Err(AccessJwtError::Jwt),
        };
        let claims = match read_access_claims(payload.as_str()) {
            Some(c) => c,
            None => return Err(AccessJwtError::Jwt),
        };
        let leeway = self.leeway_seconds as i128;
        if (claims.exp as i128) < (now as i128) - leeway {
            return Err(AccessJwtError::Expired);
        }
        if let Some(nbf) = claims.nbf {
            if (nbf as i128) > (now as i128) + leeway {
                return Err(AccessJwtError::NotYetValid);
            }
        }
        Ok(claims)
    }

    /// `verify_at`, then the strict checks of `check_access_claims`.
    pub fn verify_strict_at(&self, token: &str, now: i64) -> (r: Result<AccessTokenClaims, AccessJwtError>)
        ensures
            match r {
                Ok(c) => self.decoded(token@, now as int) matches Ok(p) && claims_match(p, c)
                    && strict_in(p) is Ok,
                Err(e) => match self.decoded(token@, now as int) {
                    Err(d) => d == e,
                    Ok(p) => strict_in(p) == Err::<(), AccessJwtError>(e),
                },
            },
    {
        let claims = self.verify_at(token, now)?;
        check_access_claims(claims)
    }

    /// `verify_strict_at`, then the application's form of the claims: exactly `outcome`.
    pub fn verify_verified_at(&self, token: &str, now: i64) -> (r: Result<VerifiedAccessToken, AccessJwtError>)
        ensures
            match r {
                Ok(v) => self.outcome(token@, now as int) == Ok::<(u128, Option<Seq<char>>), AccessJwtError>(
                    (v.user_id, opt_text(v.cnf_jkt)),
                ) && (self.decoded(token@, now as int) matches Ok(p) && verified_fields(p, v)),
                Err(e) => self.outcome(token@, now as int) == Err::<(u128, Option<Seq<char>>), AccessJwtError>(e),
            },
    {
        let claims = self.verify_strict_at(token, now)?;
        to_verified(claims)
    }

    /// `verify_at` against the current time.
    pub fn verify(&self, token: &str) -> (r: Result<AccessTokenClaims, AccessJwtError>)
        ensures
            exists|now: i64|
                #![trigger self.decoded(token@, now as int)]
                match r {
                    Ok(c) => self.decoded(token@, now as int) matches Ok(p) && claims_match(p, c),
                    Err(e) => self.decoded(token@, now as int) == Err::<Seq<char>, AccessJwtError>(e),
                },
    {
        let now = crate::dpop::now_unix();
        self.verify_at(token, now)
    }

    /// `verify_strict_at` against the current time.
    pub fn verify_strict(&self, token: &str) -> (r: Result<AccessTokenClaims, AccessJwtError>)
        ensures
            exists|now: i64|
                #![trigger self.decoded(token@, now as int)]
                match r {
                    Ok(c) => self.decoded(token@, now as int) matches Ok(p) && claims_match(p, c)
                        && strict_in(p) is Ok,
                    Err(e) => match self.decoded(token@, now as int) {
                        Err(d) => d == e,
                        Ok(p) => strict_in(p) == Err::<(), AccessJwtError>(e),
                    },
                },
    {
        let now = crate::dpop::now_unix();
        self.verify_strict_at(token, now)
    }

    /// `verify_verified_at` against the current time.
    pub fn verify_verified(&self, token: &str) -> (r: Result<VerifiedAccessToken, AccessJwtError>)
        ensures
            exists|now: i64|
                #![trigger self.outcome(token@, now as int)]
                match r {
                    Ok(v) => self.outcome(token@, now as int) == Ok::<(u128, Option<Seq<char>>), AccessJwtError>(
                        (v.user_id, opt_text(v.cnf_jkt)),
                    ) && (self.decoded(token@, now as int) matches Ok(p) && verified_fields(p, v)),
                    Err(e) => self.outcome(token@, now as int) == Err::<(u128, Option<Seq<char>>), AccessJwtError>(e),
                },
    {
        let now = crate::dpop::now_unix();
        self.verify_verified_at(token, now)
    }

    /// The UUID value of a subject.
    pub fn parse_sub_uuid(sub: &str) -> (r: Result<u128, ()>)
        ensures
            match r {
                Ok(u) => uuid_value_of(sub@) == Some(u),
                Err(_) => uuid_value_of(sub@) is None,
            },
    {
        match parse_uuid(sub) {
            Some(u) => Ok(u),
            None => Err(()),
        }
    }

    pub fn dpop_policy(&self) -> (r: DpopPolicy)
        ensures
            r == self.policy(),
    {
        self.dpop_policy
    }

    pub fn public_base_url(&self) -> (r: Option<&str>)
        ensures
            crate::htu::opt_str(r) == self.base_url(),
    {
        crate::dpop::as_opt_str(&self.public_base_url)
    }
}

} // verus!
