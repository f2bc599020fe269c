use base64::engine::general_purpose::URL_SAFE_NO_PAD;
use base64::Engine;
use ed25519_dalek::pkcs8::spki::der::pem::LineEnding;
use ed25519_dalek::pkcs8::{EncodePrivateKey, EncodePublicKey};
use ed25519_dalek::{Signer, SigningKey};
use sha2::Digest;

use dpop_auth::access::AuthService as ResourceAuth;
use dpop_auth::dpop::{compute_ath, compute_jwk_thumbprint, DpopError, DpopPolicy, ClaimName, ProofJwk, ProofRequest};
use dpop_auth::guard::{authorize, AuthRejection};
use dpop_auth::issuer::{AuthService as IssuerAuth, IssueClaims, JwtIssuer, RefreshTokenService, TokenService, ValidatedRefreshToken};
use dpop_auth::replay::{admit_replay, MemoryReplayStore};

const ISSUER: &str = "https://auth.example.com";
const AUDIENCE: &str = "api";
const SUBJECT: &str = "11111111-1111-1111-1111-111111111111";
const SUBJECT_VALUE: u128 = 0x1111_1111_1111_1111_1111_1111_1111_1111;
const RESOURCE: &str = "https://api.example.com/resource";

fn b64(b: &[u8]) -> String {
    URL_SAFE_NO_PAD.encode(b)
}

fn server_key() -> SigningKey {
    SigningKey::from_bytes(&[7u8; 32])
}

fn client_key(seed: u8) -> SigningKey {
    SigningKey::from_bytes(&[seed; 32])
}

fn x_of(k: &SigningKey) -> String {
    b64(k.verifying_key().as_bytes())
}

fn thumbprint(x: &str) -> String {
    compute_jwk_thumbprint(&ProofJwk::Okp { ed25519: true, x: x.to_string() }).unwrap()
}

fn now() -> i64 {
    chrono::Utc::now().timestamp()
}

fn policy() -> DpopPolicy {
    DpopPolicy {
        required: true,
        iat_leeway_seconds: 60,
        max_age_seconds: 300,
        require_ath: true,
        require_nonce: false,
        replay_ttl_seconds: 300,
    }
}

fn issuer() -> IssuerAuth {
    let pem = server_key().to_pkcs8_pem(LineEnding::LF).unwrap();
    let jwt = JwtIssuer::new(&pem, ISSUER.to_string(), AUDIENCE.to_string(), 600).unwrap();
    IssuerAuth::new(jwt)
}

fn resource_auth(p: DpopPolicy) -> ResourceAuth {
    let pem = server_key().verifying_key().to_public_key_pem(LineEnding::LF).unwrap();
    ResourceAuth::new(&pem, ISSUER, AUDIENCE, 60, p, None).unwrap()
}

struct Proof<'a> {
    signer: &'a SigningKey,
    x: String,
    htm: &'a str,
    htu: &'a str,
    iat: i64,
    jti: &'a str,
    ath: Option<String>,
}

fn make_proof(p: &Proof) -> String {
    let header = format!(
        r#"{{"typ":"dpop+jwt","alg":"EdDSA","jwk":{{"kty":"OKP","crv":"Ed25519","x":"{}"}}}}"#,
        p.x
    );
    let mut claims = format!(r#"{{"htm":"{}","htu":"{}","iat":{},"jti":"{}""#, p.htm, p.htu, p.iat, p.jti);
    if let Some(a) = &p.ath {
        claims.push_str(&format!(r#","ath":"{}""#, a));
    }
    claims.push('}');
    let input = format!("{}.{}", b64(header.as_bytes()), b64(claims.as_bytes()));
    let sig = p.signer.sign(input.as_bytes());
    format!("{}.{}", input, b64(&sig.to_bytes()))
}

fn request(method: &str, dpop: Vec<Option<String>>) -> ProofRequest {
    ProofRequest {
        dpop,
        method: method.to_string(),
        path: "/resource".to_string(),
        query: None,
        forwarded_proto: Some("https".to_string()),
        forwarded_host: Some("api.example.com".to_string()),
        host: None,
    }
}

fn issued_token(jkt: Option<String>) -> String {
    issuer().issue_access_token(SUBJECT, jkt).unwrap()
}

#[test]
fn issue_then_verify_admits_request() {
    let client = client_key(9);
    let x = x_of(&client);
    let jkt = thumbprint(&x);
    let service = TokenService::new(issuer(), RefreshTokenService::new(2_592_000));
    let (pair, record) = service.issue_token_pair(SUBJECT_VALUE, Some(jkt), 42).unwrap();
    assert_eq!(pair.token_type, "Bearer");
    assert_eq!(pair.expires_in, 600);
    assert_eq!(pair.session_id, 42);
    assert_eq!(pair.refresh_token, record.token);
    let a = pair.access_token;
    let p = make_proof(&Proof { signer: &client, x, htm: "GET", htu: RESOURCE, iat: now(), jti: "j-1", ath: Some(compute_ath(&a)) });
    let rs = resource_auth(policy());
    let admission = authorize(&rs, Some(&format!("Bearer {}", a)), &request("GET", vec![Some(p)])).unwrap();
    assert_eq!(admission.ctx.user_id, SUBJECT_VALUE);
    let (key, ttl) = admission.replay_claim.unwrap();
    assert_eq!(key, format!("dpop:{}:j-1", SUBJECT));
    assert_eq!(ttl, 300);
    let mut store = MemoryReplayStore::new();
    assert_eq!(admit_replay(store.check_and_store(&key, ttl, 1000)), Ok(()));
}

#[test]
fn wrong_method_is_rejected() {
    let client = client_key(9);
    let x = x_of(&client);
    let a = issued_token(Some(thumbprint(&x)));
    let p = make_proof(&Proof { signer: &client, x, htm: "GET", htu: RESOURCE, iat: now(), jti: "j-2", ath: Some(compute_ath(&a)) });
    let rs = resource_auth(policy());
    let r = authorize(&rs, Some(&format!("Bearer {}", a)), &request("POST", vec![Some(p)]));
    assert!(matches!(r, Err(AuthRejection::Dpop(DpopError::MethodMismatch))));
}

#[test]
fn proof_signed_by_other_key_is_rejected() {
    let client = client_key(9);
    let thief = client_key(11);
    let x = x_of(&client);
    let a = issued_token(Some(thumbprint(&x)));
    let p = make_proof(&Proof { signer: &thief, x, htm: "GET", htu: RESOURCE, iat: now(), jti: "j-3", ath: Some(compute_ath(&a)) });
    let rs = resource_auth(policy());
    let r = authorize(&rs, Some(&format!("Bearer {}", a)), &request("GET", vec![Some(p)]));
    assert!(matches!(r, Err(AuthRejection::Dpop(DpopError::InvalidJwt))));
}

#[test]
fn proof_key_not_bound_to_token_is_rejected() {
    let client = client_key(9);
    let other = client_key(12);
    let a = issued_token(Some(thumbprint(&x_of(&other))));
    let p = make_proof(&Proof { signer: &client, x: x_of(&client), htm: "GET", htu: RESOURCE, iat: now(), jti: "j-4", ath: Some(compute_ath(&a)) });
    let rs = resource_auth(policy());
    let r = authorize(&rs, Some(&format!("Bearer {}", a)), &request("GET", vec![Some(p)]));
    assert!(matches!(r, Err(AuthRejection::Dpop(DpopError::JktMismatch))));
}

#[test]
fn replayed_proof_is_rejected() {
    let client = client_key(9);
    let x = x_of(&client);
    let a = issued_token(Some(thumbprint(&x)));
    let p = make_proof(&Proof { signer: &client, x, htm: "GET", htu: RESOURCE, iat: now(), jti: "j-5", ath: Some(compute_ath(&a)) });
    let rs = resource_auth(policy());
    let header = format!("Bearer {}", a);
    let mut store = MemoryReplayStore::new();
    let first = authorize(&rs, Some(&header), &request("GET", vec![Some(p.clone())])).unwrap();
    let (k1, t1) = first.replay_claim.unwrap();
    assert_eq!(admit_replay(store.check_and_store(&k1, t1, 5000)), Ok(()));
    let second = authorize(&rs, Some(&header), &request("GET", vec![Some(p)])).unwrap();
    let (k2, t2) = second.replay_claim.unwrap();
    assert_eq!(admit_replay(store.check_and_store(&k2, t2, 5001)), Err(DpopError::Replayed));
}

#[test]
fn refresh_keeps_subject_and_binding() {
    let client = client_key(9);
    let x = x_of(&client);
    let jkt = thumbprint(&x);
    let service = TokenService::new(issuer(), RefreshTokenService::new(2_592_000));
    let validated = ValidatedRefreshToken { user_id: SUBJECT_VALUE, session_id: 77, jkt: Some(jkt.clone()) };
    let pair = service.refresh("opaque-refresh", Some(validated)).unwrap();
    assert_eq!(pair.refresh_token, "opaque-refresh");
    assert_eq!(pair.session_id, 77);
    let rs = resource_auth(policy());
    let verified = rs.verify_verified(&pair.access_token).unwrap();
    assert_eq!(verified.user_id, SUBJECT_VALUE);
    assert_eq!(verified.cnf_jkt, Some(jkt));
    let p = make_proof(&Proof { signer: &client, x, htm: "GET", htu: RESOURCE, iat: now(), jti: "j-6", ath: Some(compute_ath(&pair.access_token)) });
    let r = authorize(&rs, Some(&format!("Bearer {}", pair.access_token)), &request("GET", vec![Some(p)]));
    assert!(r.is_ok());
}

#[test]
fn refresh_without_valid_token_is_unauthorized() {
    let service = TokenService::new(issuer(), RefreshTokenService::new(60));
    let r = service.refresh("nope", None);
    assert!(matches!(r, Err(dpop_auth::server_error::AppError::Unauthorized)));
}

#[test]
fn missing_ath_is_rejected() {
    let client = client_key(9);
    let x = x_of(&client);
    let a = issued_token(Some(thumbprint(&x)));
    let p = make_proof(&Proof { signer: &client, x, htm: "GET", htu: RESOURCE, iat: now(), jti: "j-7", ath: None });
    let rs = resource_auth(policy());
    let r = authorize(&rs, Some(&format!("Bearer {}", a)), &request("GET", vec![Some(p)]));
    assert!(matches!(r, Err(AuthRejection::Dpop(DpopError::MissingClaim(ClaimName::Ath)))));
}

#[test]
fn wrong_ath_is_rejected() {
    let client = client_key(9);
    let x = x_of(&client);
    let a = issued_token(Some(thumbprint(&x)));
    let p = make_proof(&Proof { signer: &client, x, htm: "GET", htu: RESOURCE, iat: now(), jti: "j-8", ath: Some(compute_ath("another token")) });
    let rs = resource_auth(policy());
    let r = authorize(&rs, Some(&format!("Bearer {}", a)), &request("GET", vec![Some(p)]));
    assert!(matches!(r, Err(AuthRejection::Dpop(DpopError::AthMismatch))));
}

#[test]
fn sign_then_verify_round_trip() {
    let pem = server_key().to_pkcs8_pem(LineEnding::LF).unwrap();
    let jwt = JwtIssuer::new(&pem, ISSUER.to_string(), AUDIENCE.to_string(), 600).unwrap();
    let claims = IssueClaims {
        iss: ISSUER.to_string(),
        aud: AUDIENCE.to_string(),
        sub: SUBJECT.to_string(),
        exp: now() + 600,
        jti: "id-1".to_string(),
        cnf_jkt: Some("THUMB".to_string()),
    };
    let token = jwt.sign(&claims).unwrap();
    let rs = resource_auth(policy());
    let got = rs.verify_strict(&token).unwrap();
    assert_eq!(got.iss, claims.iss);
    assert!(matches!(&got.aud, dpop_auth::access::Audience::One(a) if a == AUDIENCE));
    assert_eq!(got.sub, claims.sub);
    assert_eq!(got.exp as i64, claims.exp);
    assert_eq!(got.jti, Some("id-1".to_string()));
    assert_eq!(got.cnf.and_then(|c| c.jkt), Some("THUMB".to_string()));
}

#[test]
fn token_from_other_issuer_key_is_rejected() {
    let pem = client_key(3).to_pkcs8_pem(LineEnding::LF).unwrap();
    let jwt = JwtIssuer::new(&pem, ISSUER.to_string(), AUDIENCE.to_string(), 600).unwrap();
    let token = IssuerAuth::new(jwt).issue_access_token(SUBJECT, None).unwrap();
    let rs = resource_auth(policy());
    assert_eq!(rs.verify_strict(&token).unwrap_err(), dpop_auth::access::AccessJwtError::Jwt);
}

#[test]
fn issuing_for_non_uuid_subject_is_invalid_request() {
    let r = issuer().issue_access_token("not-a-uuid", None);
    assert_eq!(
        r,
        Err(dpop_auth::server_error::AppError::InvalidRequest("sub must be a UUID string".to_string()))
    );
}

#[test]
fn missing_bearer_is_rejected() {
    let rs = resource_auth(policy());
    let req = request("GET", vec![]);
    assert!(matches!(authorize(&rs, None, &req), Err(AuthRejection::MissingBearer)));
    assert!(matches!(authorize(&rs, Some("Basic abc"), &req), Err(AuthRejection::MissingBearer)));
}

#[test]
fn no_proof_needed_when_not_required() {
    let mut p = policy();
    p.required = false;
    let a = issued_token(None);
    let rs = resource_auth(p);
    let admission = authorize(&rs, Some(&format!("Bearer {}", a)), &request("GET", vec![])).unwrap();
    assert_eq!(admission.ctx.user_id, SUBJECT_VALUE);
    assert!(admission.replay_claim.is_none());
}

#[test]
fn thumbprint_ignores_member_order() {
    let client = client_key(9);
    let x = x_of(&client);
    let jkt = thumbprint(&x);
    let rs_policy = DpopPolicy { require_ath: false, ..policy() };
    for header in [
        format!(r#"{{"typ":"dpop+jwt","alg":"EdDSA","jwk":{{"kty":"OKP","crv":"Ed25519","x":"{}"}}}}"#, x),
        format!(r#"{{"typ":"dpop+jwt","alg":"EdDSA","jwk":{{"crv":"Ed25519","kty":"OKP","x":"{}"}}}}"#, x),
    ] {
        let claims = format!(r#"{{"htm":"GET","htu":"{}","iat":{},"jti":"t"}}"#, RESOURCE, now());
        let input = format!("{}.{}", b64(header.as_bytes()), b64(claims.as_bytes()));
        let token = format!("{}.{}", input, b64(&client.sign(input.as_bytes()).to_bytes()));
        let r = dpop_auth::dpop::verify_proof(rs_policy, &request("GET", vec![Some(token)]), None, Some(&jkt), None);
        assert!(r.unwrap().is_some());
    }
    let canonical = format!(r#"{{"crv":"Ed25519","kty":"OKP","x":"{}"}}"#, x);
    assert_eq!(jkt, b64(&sha2::Sha256::digest(canonical.as_bytes())));
}

fn signed_with_server_key(claims_json: &str) -> String {
    let pem = server_key().to_pkcs8_pem(LineEnding::LF).unwrap();
    let key = jsonwebtoken::EncodingKey::from_ed_pem(pem.as_bytes()).unwrap();
    let claims: serde_json::Value = serde_json::from_str(claims_json).unwrap();
    jsonwebtoken::encode(&jsonwebtoken::Header::new(jsonwebtoken::Algorithm::EdDSA), &claims, &key).unwrap()
}

#[test]
fn access_token_time_and_audience_checks() {
    let rs = resource_auth(policy());
    let t = now();
    let ok = signed_with_server_key(&format!(
        r#"{{"iss":"{}","aud":["other","{}"],"sub":"{}","exp":{}}}"#,
        ISSUER, AUDIENCE, SUBJECT, t + 600
    ));
    let claims = rs.verify_strict(&ok).unwrap();
    assert!(matches!(claims.aud, dpop_auth::access::Audience::Many(ref v) if v.len() == 2));
    let expired = signed_with_server_key(&format!(
        r#"{{"iss":"{}","aud":"{}","sub":"{}","exp":{}}}"#,
        ISSUER, AUDIENCE, SUBJECT, t - 600
    ));
    assert_eq!(rs.verify_strict(&expired).unwrap_err(), dpop_auth::access::AccessJwtError::Expired);
    let early = signed_with_server_key(&format!(
        r#"{{"iss":"{}","aud":"{}","sub":"{}","exp":{},"nbf":{}}}"#,
        ISSUER, AUDIENCE, SUBJECT, t + 600, t + 600
    ));
    assert_eq!(rs.verify_strict(&early).unwrap_err(), dpop_auth::access::AccessJwtError::NotYetValid);
    let elsewhere = signed_with_server_key(&format!(
        r#"{{"iss":"{}","aud":"someone-else","sub":"{}","exp":{}}}"#,
        ISSUER, SUBJECT, t + 600
    ));
    assert_eq!(rs.verify_strict(&elsewhere).unwrap_err(), dpop_auth::access::AccessJwtError::Jwt);
    let foreign = signed_with_server_key(&format!(
        r#"{{"iss":"https://evil.example","aud":"{}","sub":"{}","exp":{}}}"#,
        AUDIENCE, SUBJECT, t + 600
    ));
    assert_eq!(rs.verify_strict(&foreign).unwrap_err(), dpop_auth::access::AccessJwtError::Jwt);
    let not_uuid = signed_with_server_key(&format!(
        r#"{{"iss":"{}","aud":"{}","sub":"alice","exp":{}}}"#,
        ISSUER, AUDIENCE, t + 600
    ));
    assert_eq!(rs.verify_strict(&not_uuid).unwrap_err(), dpop_auth::access::AccessJwtError::InvalidSubUuid);
}

#[test]
fn proof_header_errors_end_to_end() {
    let client = client_key(9);
    let x = x_of(&client);
    let p = DpopPolicy { require_ath: false, ..policy() };
    let sign = |header: String| {
        let claims = format!(r#"{{"htm":"GET","htu":"{}","iat":{},"jti":"h"}}"#, RESOURCE, now());
        let input = format!("{}.{}", b64(header.as_bytes()), b64(claims.as_bytes()));
        format!("{}.{}", input, b64(&client.sign(input.as_bytes()).to_bytes()))
    };
    let run = |token: String| dpop_auth::dpop::verify_proof(p, &request("GET", vec![Some(token)]), None, None, None);
    let jwk = format!(r#"{{"kty":"OKP","crv":"Ed25519","x":"{}"}}"#, x);
    assert_eq!(run(sign(format!(r#"{{"typ":"JWT","alg":"EdDSA","jwk":{}}}"#, jwk))).unwrap_err(), DpopError::InvalidTyp);
    assert_eq!(run(sign(format!(r#"{{"alg":"EdDSA","jwk":{}}}"#, jwk))).unwrap_err(), DpopError::InvalidTyp);
    assert_eq!(run(sign(format!(r#"{{"typ":"dpop+jwt","alg":"HS256","jwk":{}}}"#, jwk))).unwrap_err(), DpopError::UnsupportedAlg);
    assert_eq!(run(sign(r#"{"typ":"dpop+jwt","alg":"EdDSA"}"#.to_string())).unwrap_err(), DpopError::MissingJwk);
    let ec = format!(r#"{{"kty":"EC","crv":"P-256","x":"{}","y":"{}"}}"#, x, x);
    assert_eq!(run(sign(format!(r#"{{"typ":"dpop+jwt","alg":"EdDSA","jwk":{}}}"#, ec))).unwrap_err(), DpopError::UnsupportedJwk);
    let okp_other = format!(r#"{{"kty":"OKP","crv":"P-256","x":"{}"}}"#, x);
    assert_eq!(run(sign(format!(r#"{{"typ":"dpop+jwt","alg":"EdDSA","jwk":{}}}"#, okp_other))).unwrap_err(), DpopError::UnsupportedJwk);
    assert_eq!(run("not.a.jwt".to_string()).unwrap_err(), DpopError::InvalidJwt);
    assert!(run(sign(format!(r#"{{"typ":"DPoP+JWT","alg":"EdDSA","jwk":{}}}"#, jwk))).unwrap().is_some());
    let stale = {
        let claims = format!(r#"{{"htm":"GET","htu":"{}","iat":{},"jti":"h"}}"#, RESOURCE, now() - 3600);
        let header = format!(r#"{{"typ":"dpop+jwt","alg":"EdDSA","jwk":{}}}"#, jwk);
        let input = format!("{}.{}", b64(header.as_bytes()), b64(claims.as_bytes()));
        format!("{}.{}", input, b64(&client.sign(input.as_bytes()).to_bytes()))
    };
    assert_eq!(run(stale).unwrap_err(), DpopError::InvalidIat);
}

#[test]
fn any_leeway_is_accepted_and_bad_pem_refused() {
    let pem = server_key().verifying_key().to_public_key_pem(LineEnding::LF).unwrap();
    let rs = ResourceAuth::new(&pem, ISSUER, AUDIENCE, u64::MAX, policy(), None).unwrap();
    let token = issued_token(None);
    assert!(rs.verify_strict(&token).is_ok());
    assert!(ResourceAuth::new("not a pem", ISSUER, AUDIENCE, 60, policy(), None).is_none());
}

#[test]
fn expiry_window_with_leeway_at_fixed_time() {
    let rs = resource_auth(policy());
    let t = 2_000_000_000i64;
    let token = signed_with_server_key(&format!(
        r#"{{"iss":"{}","aud":"{}","sub":"{}","exp":{}}}"#,
        ISSUER, AUDIENCE, SUBJECT, t
    ));
    assert!(rs.verify_at(&token, t + 60).is_ok());
    assert_eq!(rs.verify_at(&token, t + 61).unwrap_err(), dpop_auth::access::AccessJwtError::Expired);
    let v = rs.verify_verified_at(&token, t).unwrap();
    assert_eq!(v.user_id, SUBJECT_VALUE);
}

#[test]
fn proof_claim_of_wrong_type_is_invalid_jwt() {
    let client = client_key(9);
    let x = x_of(&client);
    let header = format!(r#"{{"typ":"dpop+jwt","alg":"EdDSA","jwk":{{"kty":"OKP","crv":"Ed25519","x":"{}"}}}}"#, x);
    let claims = format!(r#"{{"htm":"GET","htu":"{}","iat":"{}","jti":"w"}}"#, RESOURCE, now());
    let input = format!("{}.{}", b64(header.as_bytes()), b64(claims.as_bytes()));
    let token = format!("{}.{}", input, b64(&client.sign(input.as_bytes()).to_bytes()));
    let p = DpopPolicy { require_ath: false, ..policy() };
    let r = dpop_auth::dpop::verify_proof(p, &request("GET", vec![Some(token)]), None, None, None);
    assert_eq!(r.unwrap_err(), DpopError::InvalidJwt);
}

#[test]
fn verified_token_carries_its_claims() {
    let rs = resource_auth(policy());
    let token = signed_with_server_key(&format!(
        r#"{{"iss":"{}","aud":"{}","sub":"{}","exp":{},"jti":"J1","scope":"read write","roles":["admin"],"cnf":{{"jkt":"K"}}}}"#,
        ISSUER, AUDIENCE, SUBJECT, now() + 600
    ));
    let v = rs.verify_verified(&token).unwrap();
    assert_eq!(v.user_id, SUBJECT_VALUE);
    assert_eq!(v.jti.as_deref(), Some("J1"));
    assert_eq!(v.scope.as_deref(), Some("read write"));
    assert_eq!(v.roles, Some(vec!["admin".to_string()]));
    assert_eq!(v.cnf_jkt.as_deref(), Some("K"));
}

#[test]
fn issue_at_fixed_time_and_id() {
    let service = issuer();
    let t = service.issue_access_token_at(SUBJECT, Some("J".to_string()), 1_000, 7).unwrap();
    let payload = t.split('.').nth(1).unwrap();
    let claims: serde_json::Value = serde_json::from_slice(&URL_SAFE_NO_PAD.decode(payload).unwrap()).unwrap();
    assert_eq!(claims["exp"], 1_600);
    assert_eq!(claims["sub"], SUBJECT);
    assert_eq!(claims["jti"], "00000000-0000-0000-0000-000000000007");
    assert_eq!(claims["cnf"]["jkt"], "J");
    assert_eq!(service.issue_access_token_at(SUBJECT, None, i64::MAX - 599, 7).unwrap_err(), dpop_auth::server_error::AppError::Internal);
}
