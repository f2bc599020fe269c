use vstd::prelude::*;

use crate::digest::{b64url, b64url_of, hash_refresh_token, is_b64url_char, sha256_of, utf8};
use crate::dpop::now_unix;
use crate::ids::{new_uuid_v4, random_bytes, parse_uuid, uuid_text, uuid_text_of, uuid_value_of};
use crate::server_error::AppError;
use crate::jwt::{claims_view, ed_private_key_ok, ed_private_pem_ok, sign_claims, signed_token_of, ClaimValue, ClaimValueView, JwsAlgorithm};
use crate::text::owned;

verus! {

/// The claims of an access token to issue.
#[derive(Clone, Debug)]
pub struct IssueClaims {
    pub iss: String,
    pub aud: String,
    pub sub: String,
    pub exp: i64,
    pub jti: String,
    pub cnf_jkt: Option<String>,
}

pub struct IssueClaimsView {
    pub iss: Seq<char>,
    pub aud: Seq<char>,
    pub sub: Seq<char>,
    pub exp: i64,
    pub jti: Seq<char>,
    pub cnf_jkt: Option<Seq<char>>,
}

impl View for IssueClaims {
    type V = IssueClaimsView;

    open spec fn view(&self) -> IssueClaimsView {
        IssueClaimsView {
            iss: self.iss@,
            aud: self.aud@,
            sub: self.sub@,
            exp: self.exp,
            jti: self.jti@,
            cnf_jkt: crate::htu::opt_text(self.cnf_jkt),
        }
    }
}

/// The members of an access token's payload: `iss`, `aud`, `sub`, `exp`, `jti` and, where
/// bound, `cnf = { jkt }`.
pub open spec fn claims_list(c: IssueClaimsView) -> Seq<(Seq<char>, ClaimValueView)> {
    let base = seq![
        ("iss"@, ClaimValueView::Text(c.iss)),
        ("aud"@, ClaimValueView::Text(c.aud)),
        ("sub"@, ClaimValueView::Text(c.sub)),
        ("exp"@, ClaimValueView::Int(c.exp)),
        ("jti"@, ClaimValueView::Text(c.jti)),
    ];
    match c.cnf_jkt {
        Some(j) => base.push(("cnf"@, ClaimValueView::Object(seq![("jkt"@, j)]))),
        None => base,
    }
}

/// `t` is the token that `jsonwebtoken` signs for the claims with the key of `pem`, header
/// `{"typ":"JWT","alg":"EdDSA"}`.
pub open spec fn is_token_for(pem: Seq<char>, t: Seq<char>, c: IssueClaimsView) -> bool {
    signed_token_of(claims_list(c), pem, JwsAlgorithm::EdDSA) == Some(t)
}

/// The payload members of the claims.
pub fn claim_members(c: &IssueClaims) -> (r: Vec<(String, ClaimValue)>)
    ensures
        claims_view(r@) == claims_list(c@),
{
    let mut r: Vec<(String, ClaimValue)> = Vec::new();
    r.push((owned("iss"), ClaimValue::Text(c.iss.clone())));
    r.push((owned("aud"), ClaimValue::Text(c.aud.clone())));
    r.push((owned("sub"), ClaimValue::Text(c.sub.clone())));
    r.push((owned("exp"), ClaimValue::Int(c.exp)));
    r.push((owned("jti"), ClaimValue::Text(c.jti.clone())));
    match &c.cnf_jkt {
        Some(j) => {
            let mut m: Vec<(String, String)> = Vec::new();
            m.push((owned("jkt"), j.clone()));
            assert(m@.map_values(|p: (String, String)| (p.0@, p.1@)) =~= seq![("jkt"@, j@)]);
            r.push((owned("cnf"), ClaimValue::Object(m)));
        },
        None => {},
    }
    assert(claims_view(r@) =~= claims_list(c@));
    r
}

/// Signs access tokens with an Ed25519 private key, for one issuer and audience.
pub struct JwtIssuer {
    issuer: String,
    audience: String,
    ttl_seconds: u64,
    private_key_pem: String,
}

impl JwtIssuer {
    /// An issuer for the PKCS#8 PEM Ed25519 key `private_key_pem`; `Internal` where the text
    /// holds no such key.
    pub fn new(private_key_pem: &str, issuer: String, audience: String, ttl_seconds: u64) -> (r:
        Result<Self, AppError>)
        ensures
            r is Ok <==> ed_private_pem_ok(private_key_pem@),
            r matches Ok(j) ==> j.issuer_view() == issuer@ && j.audience_view() == audience@
                && j.ttl() == ttl_seconds && j.key_pem() == private_key_pem@,
            r matches Err(e) ==> e == AppError::Internal,
    {
        if !ed_private_key_ok(private_key_pem) {
            return Err(AppError::Internal);
        }
        Ok(JwtIssuer { issuer, audience, ttl_seconds, private_key_pem: owned(private_key_pem) })
    }

    pub closed spec fn issuer_view(&self) -> Seq<char> {
        self.issuer@
    }

    pub closed spec fn audience_view(&self) -> Seq<char> {
        self.audience@
    }

    pub closed spec fn ttl(&self) -> u64 {
        self.ttl_seconds
    }

    pub closed spec fn key_pem(&self) -> Seq<char> {
        self.private_key_pem@
    }

    pub fn issuer(&self) -> (r: &str)
        ensures
            r@ == self.issuer_view(),
    {
        self.issuer.as_str()
    }

    pub fn audience(&self) -> (r: &str)
        ensures
            r@ == self.audience_view(),
    {
        self.audience.as_str()
    }

    pub fn ttl_seconds(&self) -> (r: u64)
        ensures
            r == self.ttl(),
    {
        self.ttl_seconds
    }

    /// The compact EdDSA token for the claims; `Internal` where signing fails.
    pub fn sign(&self, claims: &IssueClaims) -> (r: Result<String, AppError>)
        ensures
            r matches Ok(t) ==> is_token_for(self.key_pem(), t@, claims@),
            r is Err <==> signed_token_of(claims_list(claims@), self.key_pem(), JwsAlgorithm::EdDSA) is None,
            r matches Err(e) ==> e == AppError::Internal,
    {
        let members = claim_members(claims);
        match sign_claims(&members, self.private_key_pem.as_str(), JwsAlgorithm::EdDSA) {
            Some(t) => Ok(t),
            None => Err(AppError::Internal),
        }
    }
}

/// The claims of an access token for subject text `sub`, issued at `now` with id `jti`.
pub open spec fn claims_for(
    issuer: Seq<char>,
    audience: Seq<char>,
    ttl: u64,
    sub: Seq<char>,
    jkt: Option<Seq<char>>,
    now: i64,
    jti: Seq<char>,
) -> IssueClaimsView {
    IssueClaimsView {
        iss: issuer,
        aud: audience,
        sub,
        exp: (now + ttl) as i64,
        jti,
        cnf_jkt: jkt,
    }
}

/// Mints access tokens on the authorization server.
pub struct AuthService {
    pub jwt: JwtIssuer,
}

pub open spec fn sub_error() -> Seq<char> {
    "sub must be a UUID string"@
}

impl AuthService {
    pub fn new(jwt: JwtIssuer) -> (r: Self)
        ensures
            r.jwt == jwt,
    {
        AuthService { jwt }
    }

    /// An access token for the subject with UUID value `subject`, bound to `jkt` where given,
    /// issued at `now` with id `jti`: `sub` in canonical UUID form, `exp = now + ttl`.
    pub fn issue_for_subject(&self, subject: u128, jkt: Option<String>, now: i64, jti: u128) -> (r:
        Result<String, AppError>)
        ensures
            r matches Ok(t) ==> now + self.jwt.ttl() <= i64::MAX && is_token_for(
                self.jwt.key_pem(), t@,
                claims_for(
                    self.jwt.issuer_view(),
                    self.jwt.audience_view(),
                    self.jwt.ttl(),
                    uuid_text_of(subject),
                    crate::htu::opt_text(jkt),
                    now,
                    uuid_text_of(jti),
                ),
            ),
            r matches Err(e) ==> e == AppError::Internal,
            r is Ok <==> now + self.jwt.ttl() <= i64::MAX && signed_token_of(
                claims_list(
                    claims_for(
                        self.jwt.issuer_view(),
                        self.jwt.audience_view(),
                        self.jwt.ttl(),
                        uuid_text_of(subject),
                        crate::htu::opt_text(jkt),
                        now,
                        uuid_text_of(jti),
                    ),
                ),
                self.jwt.key_pem(),
                JwsAlgorithm::EdDSA,
            ) is Some,
    {
        let ttl = self.jwt.ttl_seconds();
        if (now as i128) + (ttl as i128) > i64::MAX as i128 {
            return Err(AppError::Internal);
        }
        let exp = ((now as i128) + (ttl as i128)) as i64;
        let claims = IssueClaims {
            iss: owned(self.jwt.issuer()),
            aud: owned(self.jwt.audience()),
            sub: uuid_text(subject),
            exp,
            jti: uuid_text(jti),
            cnf_jkt: jkt,
        };
        self.jwt.sign(&claims)
    }

    /// An access token for subject `sub` (a UUID text), bound to `jkt` where given, issued at
    /// `now` with id `jti`; `sub` must be a UUID.
    pub fn issue_access_token_at(&self, sub: &str, jkt: Option<String>, now: i64, jti: u128) -> (r:
        Result<String, AppError>)
        ensures
            uuid_value_of(sub@) is None ==> (r matches Err(AppError::InvalidRequest(m)) && m@
                == sub_error()),
            r matches Ok(t) ==> uuid_value_of(sub@) is Some && is_token_for(
                self.jwt.key_pem(), t@,
                claims_for(
                    self.jwt.issuer_view(),
                    self.jwt.audience_view(),
                    self.jwt.ttl(),
                    uuid_text_of(uuid_value_of(sub@)->0),
                    crate::htu::opt_text(jkt),
                    now,
                    uuid_text_of(jti),
                ),
            ),
            r matches Err(e) ==> e == AppError::Internal || uuid_value_of(sub@) is None,
            uuid_value_of(sub@) is Some ==> (r is Ok <==> now + self.jwt.ttl() <= i64::MAX
                && signed_token_of(
                claims_list(
                    claims_for(
                        self.jwt.issuer_view(),
                        self.jwt.audience_view(),
                        self.jwt.ttl(),
                        uuid_text_of(uuid_value_of(sub@)->0),
                        crate::htu::opt_text(jkt),
                        now,
                        uuid_text_of(jti),
                    ),
                ),
                self.jwt.key_pem(),
                JwsAlgorithm::EdDSA,
            ) is Some),
    {
        let subject = match parse_uuid(sub) {
            Some(u) => u,
            None => {
                let m = owned("sub must be a UUID string");
                return Err(AppError::InvalidRequest(m));
            },
        };
        self.issue_for_subject(subject, jkt, now, jti)
    }

    /// An access token for `sub` issued now, with a fresh random id.
    pub fn issue_access_token(&self, sub: &str, jkt: Option<String>) -> (r: Result<
        String,
        AppError,
    >)
        ensures
            uuid_value_of(sub@) is None ==> (r matches Err(AppError::InvalidRequest(m)) && m@
                == sub_error()),
            r matches Ok(t) ==> exists|now: i64, jti: u128|
                is_token_for(
                    self.jwt.key_pem(), t@,
                    claims_for(
                        self.jwt.issuer_view(),
                        self.jwt.audience_view(),
                        self.jwt.ttl(),
                        uuid_text_of(uuid_value_of(sub@)->0),
                        crate::htu::opt_text(jkt),
                        now,
                        uuid_text_of(jti),
                    ),
                ),
            r matches Err(e) ==> e == AppError::Internal || uuid_value_of(sub@) is None,
    {
        let now = now_unix();
        let jti = match new_uuid_v4() {
            Some(j) => j,
            None => {
                if parse_uuid(sub).is_none() {
                    let m = owned("sub must be a UUID string");
                    return Err(AppError::InvalidRequest(m));
                }
                return Err(AppError::Internal);
            },
        };
        self.issue_access_token_at(sub, jkt, now, jti)
    }

    pub fn access_token_ttl_seconds(&self) -> (r: u64)
        ensures
            r == self.jwt.ttl(),
    {
        self.jwt.ttl_seconds()
    }
}

/// A refresh token as handed to the client, with what is stored of it.
#[derive(Clone, Debug)]
pub struct NewRefreshToken {
    /// The opaque token; it is never stored.
    pub token: String,
    /// SHA-256 of the token's UTF-8 bytes, 32 bytes.
    pub token_hash: Vec<u8>,
    pub issued_at: i64,
    pub expires_at: i64,
}

/// A stored refresh token (times in Unix seconds).
#[derive(Clone, Debug)]
pub struct RefreshRecord {
    pub id: u128,
    pub session_id: u128,
    pub token_hash: Vec<u8>,
    pub issued_at: i64,
    pub expires_at: i64,
    pub used_at: Option<i64>,
    pub revoked_at: Option<i64>,
    pub replaced_by: Option<u128>,
}

/// A record is active while not revoked and not expired.
pub open spec fn record_active(r: RefreshRecord, now: i64) -> bool {
    r.revoked_at is None && r.expires_at > now
}

impl RefreshRecord {
    pub fn is_active(&self, now: i64) -> (r: bool)
        ensures
            r == record_active(*self, now),
    {
        self.revoked_at.is_none() && self.expires_at > now
    }

    /// Revokes a record not yet revoked, at `now`, naming its successor where there is one;
    /// returns how many records changed (0 or 1).
    pub fn revoke(&mut self, now: i64, replaced_by: Option<u128>) -> (r: u64)
        ensures
            old(self).revoked_at is None ==> r == 1 && final(self).revoked_at == Some(now)
                && final(self).replaced_by == replaced_by,
            old(self).revoked_at is Some ==> r == 0 && *final(self) == *old(self),
            final(self).id == old(self).id && final(self).session_id == old(self).session_id
                && final(self).token_hash == old(self).token_hash && final(self).expires_at
                == old(self).expires_at && final(self).used_at == old(self).used_at,
    {
        if self.revoked_at.is_some() {
            return 0;
        }
        self.revoked_at = Some(now);
        self.replaced_by = replaced_by;
        1
    }
}

/// Whether two byte strings are equal.
pub fn same_bytes(a: &Vec<u8>, b: &Vec<u8>) -> (r: bool)
    ensures
        r == (a@ == b@),
{
    if a.len() != b.len() {
        return false;
    }
    let mut i: usize = 0;
    while i < a.len()
        invariant
            i <= a.len(),
            a.len() == b.len(),
            forall|j: int| 0 <= j < i ==> a@[j] == b@[j],
        decreases a.len() - i,
    {
        if a[i] != b[i] {
            return false;
        }
        i += 1;
    }
    assert(a@ =~= b@);
    true
}

/// A refresh token that was found active, with what its session says.
#[derive(Clone, Debug)]
pub struct ValidatedRefreshToken {
    pub user_id: u128,
    pub session_id: u128,
    pub jkt: Option<String>,
}

/// Issues refresh tokens with a fixed lifetime.
#[derive(Clone, Copy, Debug)]
pub struct RefreshTokenService {
    pub ttl_seconds: u64,
}

/// 32 random bytes, base64url without padding.
pub fn generate_refresh_token() -> (r: Result<String, AppError>)
    ensures
        r matches Ok(t) ==> exists|b: Seq<u8>| b.len() == 32 && t@ == b64url_of(b),
        r matches Ok(t) ==> t@.len() == 43 && forall|i: int|
            0 <= i < t@.len() ==> is_b64url_char(#[trigger] t@[i]),
        r matches Err(e) ==> e == AppError::Internal,
{
    match random_bytes(32) {
        Some(b) => Ok(b64url(b.as_slice())),
        None => Err(AppError::Internal),
    }
}

impl RefreshTokenService {
    pub fn new(ttl_seconds: u64) -> (r: Self)
        ensures
            r.ttl_seconds == ttl_seconds,
    {
        RefreshTokenService { ttl_seconds }
    }

    /// The refresh token made of 32 drawn bytes at `now`: their base64url text, its hash, and
    /// its lifetime; `Internal` exactly where `now + ttl` does not fit.
    pub fn refresh_token_from(&self, bytes: &Vec<u8>, now: i64) -> (r: Result<NewRefreshToken, AppError>)
        ensures
            r is Ok <==> now + self.ttl_seconds <= i64::MAX,
            r matches Ok(n) ==> n.token@ == b64url_of(bytes@) && n.token_hash@ == sha256_of(
                utf8(n.token@),
            ) && n.issued_at == now && n.expires_at == now + self.ttl_seconds && n.token@.len() == (4
                * bytes@.len() + 2) / 3 && n.token_hash@.len() == 32,
            r matches Err(e) ==> e == AppError::Internal,
    {
        if (now as i128) + (self.ttl_seconds as i128) > i64::MAX as i128 {
            return Err(AppError::Internal);
        }
        let token = b64url(bytes.as_slice());
        let token_hash = hash_refresh_token(token.as_str());
        let expires_at = ((now as i128) + (self.ttl_seconds as i128)) as i64;
        Ok(NewRefreshToken { token, token_hash, issued_at: now, expires_at })
    }

    /// A fresh token with its hash and lifetime from `now`; `Internal` where the expiry does
    /// not fit or no random bytes can be had.
    pub fn issue_refresh_token_at(&self, now: i64) -> (r: Result<NewRefreshToken, AppError>)
        ensures
            r matches Ok(n) ==> n.token_hash@ == sha256_of(utf8(n.token@)) && n.token_hash@.len()
                == 32 && n.issued_at == now && n.expires_at == now + self.ttl_seconds && n.token@.len()
                == 43 && (exists|b: Seq<u8>| b.len() == 32 && n.token@ == b64url_of(b)),
            now + self.ttl_seconds > i64::MAX ==> r == Err::<NewRefreshToken, AppError>(
                AppError::Internal,
            ),
            r matches Err(e) ==> e == AppError::Internal,
    {
        if (now as i128) + (self.ttl_seconds as i128) > i64::MAX as i128 {
            return Err(AppError::Internal);
        }
        let bytes = match random_bytes(32) {
            Some(b) => b,
            None => return Err(AppError::Internal),
        };
        self.refresh_token_from(&bytes, now)
    }

    /// Revokes the record found for a presented token, where it is active at `now`; returns
    /// how many records changed (0 or 1).
    pub fn revoke_by_token(&self, record: &mut Option<RefreshRecord>, now: i64) -> (r: u64)
        ensures
            (*old(record) matches Some(rec) && record_active(rec, now)) ==> (r == 1 && (*final(record) matches Some(n) && n.revoked_at == Some(now) && n.replaced_by is None && n.id == (*old(record))->0.id)),
            !(*old(record) matches Some(rec) && record_active(rec, now)) ==> (r == 0 && *final(record) == *old(record)),
    {
        match record {
            Some(rec) => {
                if !rec.is_active(now) {
                    return 0;
                }
                rec.revoke(now, None)
            },
            None => 0,
        }
    }

    /// The presented token, joined with its session: `None` where the record found is not the
    /// token's (by hash), is not active, or its session is gone or revoked.
    pub fn validate_refresh_token(
        &self,
        token: &str,
        record: Option<&RefreshRecord>,
        session: Option<(u128, Option<String>)>,
        now: i64,
    ) -> (r: Option<ValidatedRefreshToken>)
        ensures
            r is Some <==> (record matches Some(rec) && rec.token_hash@ == sha256_of(utf8(token@))
                && record_active(*rec, now) && session is Some),
            r matches Some(v) ==> v.session_id == record->0.session_id && v.user_id
                == (session->0).0 && v.jkt == (session->0).1,
    {
        let rec = match record {
            Some(rec) => rec,
            None => return None,
        };
        if !rec.is_active(now) {
            return None;
        }
        let hash = hash_refresh_token(token);
        if !same_bytes(&hash, &rec.token_hash) {
            return None;
        }
        match session {
            Some((user_id, jkt)) => Some(ValidatedRefreshToken { user_id, session_id: rec.session_id, jkt }),
            None => None,
        }
    }
}

/// A token pair as the token endpoint returns it.
#[derive(Clone, Debug)]
pub struct IssuedTokenPair {
    pub access_token: String,
    pub refresh_token: String,
    pub token_type: &'static str,
    pub expires_in: u64,
    pub session_id: u128,
}

/// Reserved for rotation: what a rotated refresh token carries.
#[derive(Clone, Debug)]
pub struct RotatedRefreshToken {
    pub refresh_token: String,
    pub session_id: u128,
    pub sub: String,
    pub jkt: Option<String>,
}

/// Issues token pairs and refreshes access tokens.
pub struct TokenService {
    pub access_issuer: AuthService,
    pub refresh_issuer: RefreshTokenService,
}

impl TokenService {
    pub fn new(access_issuer: AuthService, refresh_issuer: RefreshTokenService) -> (r: Self)
        ensures
            r.access_issuer == access_issuer,
            r.refresh_issuer == refresh_issuer,
    {
        TokenService { access_issuer, refresh_issuer }
    }

    /// A new pair for subject `sub` in the session `session_id` just created: an access
    /// token bound to `jkt` where given, and a refresh token whose record is to be stored.
    pub fn issue_token_pair(&self, sub: u128, jkt: Option<String>, session_id: u128) -> (r:
        Result<(IssuedTokenPair, NewRefreshToken), AppError>)
        ensures
            r matches Ok((p, n)) ==> p.session_id == session_id && p.token_type@ == "Bearer"@
                && p.expires_in == self.access_issuer.jwt.ttl() && p.refresh_token@ == n.token@
                && n.token_hash@ == sha256_of(utf8(n.token@)) && (exists|now: i64, jti: u128|
                is_token_for(
                    self.access_issuer.jwt.key_pem(), p.access_token@,
                    claims_for(
                        self.access_issuer.jwt.issuer_view(),
                        self.access_issuer.jwt.audience_view(),
                        self.access_issuer.jwt.ttl(),
                        uuid_text_of(sub),
                        crate::htu::opt_text(jkt),
                        now,
                        uuid_text_of(jti),
                    ),
                )),
            r matches Err(e) ==> e == AppError::Internal,
    {
        let now = now_unix();
        let access_token = match new_uuid_v4() {
            Some(jti) => self.access_issuer.issue_for_subject(sub, jkt, now, jti)?,
            None => return Err(AppError::Internal),
        };
        let refresh = self.refresh_issuer.issue_refresh_token_at(now)?;
        let pair = IssuedTokenPair {
            access_token,
            refresh_token: refresh.token.clone(),
            token_type: "Bearer",
            expires_in: self.access_issuer.access_token_ttl_seconds(),
            session_id,
        };
        Ok((pair, refresh))
    }

    /// A new access token for the session behind a presented refresh token, which is returned
    /// unchanged; `Unauthorized` where the token was not validated.
    pub fn refresh(&self, refresh_token: &str, validated: Option<ValidatedRefreshToken>) -> (r:
        Result<IssuedTokenPair, AppError>)
        ensures
            validated is None ==> r == Err::<IssuedTokenPair, AppError>(AppError::Unauthorized),
            r matches Ok(p) ==> validated matches Some(v) && p.refresh_token@ == refresh_token@
                && p.session_id == v.session_id && p.token_type@ == "Bearer"@ && p.expires_in
                == self.access_issuer.jwt.ttl() && (exists|now: i64, jti: u128|
                is_token_for(
                    self.access_issuer.jwt.key_pem(), p.access_token@,
                    claims_for(
                        self.access_issuer.jwt.issuer_view(),
                        self.access_issuer.jwt.audience_view(),
                        self.access_issuer.jwt.ttl(),
                        uuid_text_of(v.user_id),
                        crate::htu::opt_text(v.jkt),
                        now,
                        uuid_text_of(jti),
                    ),
                )),
            validated is Some && r is Err ==> r == Err::<IssuedTokenPair, AppError>(
                AppError::Internal,
            ),
    {
        let v = match validated {
            Some(v) => v,
            None => return Err(AppError::Unauthorized),
        };
        let now = now_unix();
        let access_token = match new_uuid_v4() {
            Some(jti) => self.access_issuer.issue_for_subject(v.user_id, v.jkt, now, jti)?,
            None => return Err(AppError::Internal),
        };
        Ok(IssuedTokenPair {
            access_token,
            refresh_token: owned(refresh_token),
            token_type: "Bearer",
            expires_in: self.access_issuer.access_token_ttl_seconds(),
            session_id: v.session_id,
        })
    }
}

} // verus!
