use std::sync::Arc;

use dpop_auth::access::{read_access_claims, aud_is_present_and_valid, check_access_claims, AccessJwtError, AccessTokenClaims, Audience, AuthCtx, RequiredClaim};
use dpop_auth::api_error::AppError as ApiError;
use dpop_auth::config::{build_dpop_policy, parse_flag, u64_to_i64, unescape_pem, AppEnv, ConfigError};
use dpop_auth::digest::{hash_refresh_token, sha256_b64url};
use dpop_auth::dpop::{read_proof_claims, require_claims, check_iat, check_proof_claims, check_proof_header, compute_ath, select_proof, ClaimName, DpopError, DpopPolicy, JoseHeader, ProofClaims, ProofJwk};
use dpop_auth::guard::bearer_token;
use dpop_auth::htu::{build_expected_htu, build_htu_from_base, build_htu_from_forwarded, normalize_htu, normalize_parts, same_htu, UrlParts};
use dpop_auth::id_codec::{decoded_id, IdCodec, IdCodecError};
use dpop_auth::issuer::{claim_members, generate_refresh_token, IssueClaims, RefreshRecord, RefreshTokenService};
use dpop_auth::replay::{replay_outcome, CacheError, admit_replay, clamp_ttl, replay_key, MemoryReplayStore, ReplayOutcome, ValkeyReplayStore, DEFAULT_REPLAY_PREFIX};
use dpop_auth::resources::{CreatePostRequest, CreateUserRequest, PublicId, PostTag, UpdatePostRequest, UpdateUserRequest};
use dpop_auth::jwt::ClaimValue;
use dpop_auth::server_error::AppError;
use dpop_auth::session::{Session, SessionError, SessionOp};
use dpop_auth::text::{eq_ignore_ascii_case, i64_text, is_blank, to_ascii_lowercase, u64_text};
use dpop_auth::token_endpoint::{plan_token_request, token_response, TokenGrant, TokenRequest};

fn policy() -> DpopPolicy {
    DpopPolicy {
        required: true,
        iat_leeway_seconds: 60,
        max_age_seconds: 300,
        require_ath: false,
        require_nonce: false,
        replay_ttl_seconds: 300,
    }
}

fn full_claims() -> ProofClaims {
    ProofClaims {
        htm: Some("get".to_string()),
        htu: Some("HTTPS://API.example.com:443/resource".to_string()),
        iat: Some(1000),
        jti: Some("j".to_string()),
        ath: None,
        nonce: None,
    }
}

#[test]
fn uri_normalization_examples() {
    assert_eq!(normalize_htu("HTTP://Host:80/a?b=1"), normalize_htu("http://host/a?b=1"));
    assert_eq!(normalize_htu("https://H:443/"), normalize_htu("https://h/"));
    assert_eq!(normalize_htu("https://H:443/"), "https://h/");
    assert_eq!(normalize_htu("http://Example.COM:8080/P?Q=1"), "http://example.com:8080/P?Q=1");
    assert_eq!(normalize_htu("not a url"), "not a url");
    assert!(same_htu("HTTP://Host:80/a?b=1", "http://host/a?b=1"));
    assert!(!same_htu("http://host/a", "http://host/b"));
}

#[test]
fn normal_form_drops_only_default_ports() {
    let parts = |scheme: &str, port: Option<u16>| UrlParts {
        scheme: scheme.to_string(),
        host: Some("Api.Example".to_string()),
        port,
        path: "/X".to_string(),
        query: Some("a=B".to_string()),
    };
    assert_eq!(normalize_parts(&parts("HTTP", Some(80))), "http://api.example/X?a=B");
    assert_eq!(normalize_parts(&parts("https", Some(443))), "https://api.example/X?a=B");
    assert_eq!(normalize_parts(&parts("https", Some(80))), "https://api.example:80/X?a=B");
    assert_eq!(normalize_parts(&parts("http", None)), "http://api.example/X?a=B");
}

#[test]
fn expected_htu_from_headers_and_base() {
    assert_eq!(build_htu_from_forwarded(None, None, None, "/r", None), "http://localhost/r");
    assert_eq!(build_htu_from_forwarded(Some("https"), Some("fwd"), Some("host"), "/r", Some("q=1")), "https://fwd/r?q=1");
    assert_eq!(build_htu_from_forwarded(None, None, Some("host:3000"), "/r", None), "http://host:3000/r");
    assert_eq!(build_htu_from_base("https://api.example.com", "/resource", Some("x=1")), Some("https://api.example.com/resource?x=1".to_string()));
    assert_eq!(build_htu_from_base("not a base", "/resource", None), None);
    assert_eq!(build_expected_htu(Some("https://api.example.com/ignored"), Some("http"), None, Some("h"), "/r", None), "https://api.example.com/r");
    assert_eq!(build_expected_htu(Some("::bad::"), None, None, Some("h"), "/r", None), "http://h/r");
}

#[test]
fn iat_window_boundaries() {
    let p = policy();
    let now = 10_000;
    assert_eq!(check_iat(p, now + 60, now), Ok(()));
    assert_eq!(check_iat(p, now + 61, now), Err(DpopError::InvalidIat));
    assert_eq!(check_iat(p, now - 360, now), Ok(()));
    assert_eq!(check_iat(p, now - 361, now), Err(DpopError::InvalidIat));
    assert_eq!(check_iat(p, i64::MIN, i64::MAX), Err(DpopError::InvalidIat));
}

#[test]
fn replay_ttl_boundaries() {
    let mut store = MemoryReplayStore::new();
    let key = replay_key("u", "j");
    assert_eq!(store.check_and_store(&key, 300, 1000), ReplayOutcome::Stored);
    assert_eq!(store.check_and_store(&key, 300, 1000 + 299), ReplayOutcome::AlreadyPresent);
    assert_eq!(store.check_and_store(&key, 300, 1000 + 301), ReplayOutcome::Stored);
    assert_eq!(store.check_and_store("other", 300, 1000), ReplayOutcome::Stored);
}

#[test]
fn replay_at_most_one_acceptance_within_ttl() {
    let mut store = MemoryReplayStore::new();
    let stored = [0u64, 1, 50, 120, 299]
        .iter()
        .filter(|t| store.check_and_store("dpop:u:j", 300, 7000 + **t) == ReplayOutcome::Stored)
        .count();
    assert_eq!(stored, 1);
}

#[test]
fn replay_ttl_is_at_least_one_second() {
    assert_eq!(clamp_ttl(0), 1);
    assert_eq!(clamp_ttl(5), 5);
    let mut store = MemoryReplayStore::new();
    assert_eq!(store.check_and_store("k", 0, 10), ReplayOutcome::Stored);
    assert_eq!(store.check_and_store("k", 0, 10), ReplayOutcome::AlreadyPresent);
    assert_eq!(store.check_and_store("k", 0, 11), ReplayOutcome::Stored);
}

#[test]
fn replay_admission_fails_closed() {
    assert_eq!(admit_replay(ReplayOutcome::Stored), Ok(()));
    assert_eq!(admit_replay(ReplayOutcome::AlreadyPresent), Err(DpopError::Replayed));
    assert_eq!(admit_replay(ReplayOutcome::BackendError), Err(DpopError::ReplayUnavailable));
}

#[test]
fn replay_keys_are_prefixed() {
    assert_eq!(replay_key("11111111-1111-1111-1111-111111111111", "abc"), "dpop:11111111-1111-1111-1111-111111111111:abc");
    let store = ValkeyReplayStore::new_with_cache(Arc::new(()), DEFAULT_REPLAY_PREFIX.to_string());
    assert_eq!(store.key("dpop:u:j"), "dpop:replay:dpop:u:j");
}

#[test]
fn refresh_token_hash_is_32_bytes_and_not_the_token() {
    let h = hash_refresh_token("abc");
    assert_eq!(h.len(), 32);
    assert_eq!(h[0], 0xba);
    let service = RefreshTokenService::new(2_592_000);
    let issued = service.issue_refresh_token_at(1_000).unwrap();
    assert_eq!(issued.token_hash.len(), 32);
    assert_eq!(issued.token_hash, hash_refresh_token(&issued.token));
    assert_ne!(issued.token_hash, issued.token.as_bytes().to_vec());
    assert_eq!(issued.token.len(), 43);
    assert_eq!(issued.expires_at, 1_000 + 2_592_000);
    assert_ne!(generate_refresh_token().unwrap(), generate_refresh_token().unwrap());
    let t = generate_refresh_token().unwrap();
    assert_eq!(t.len(), 43);
    assert!(t.chars().all(|c| c.is_ascii_alphanumeric() || c == '-' || c == '_'));
    assert_eq!(base64::Engine::decode(&base64::engine::general_purpose::URL_SAFE_NO_PAD, &t).unwrap().len(), 32);
}

#[test]
fn sha256_base64url_known_value() {
    assert_eq!(sha256_b64url("abc"), "ungWv48Bz-pBQUDeXa4iI7ADYaOWF3qctBD_YfIAFa0");
    assert_eq!(compute_ath("abc"), "ungWv48Bz-pBQUDeXa4iI7ADYaOWF3qctBD_YfIAFa0");
    assert_eq!(compute_ath(""), "47DEQpj8HBSa-_TImW-5JCeuQeRkm5NMpJWZG3hSuFU");
}

#[test]
fn refresh_record_activity() {
    let rec = RefreshRecord {
        id: 1,
        session_id: 2,
        token_hash: hash_refresh_token("R"),
        issued_at: 0,
        expires_at: 100,
        used_at: None,
        revoked_at: None,
        replaced_by: None,
    };
    assert!(rec.is_active(99));
    assert!(!rec.is_active(100));
    let service = RefreshTokenService::new(10);
    let v = service.validate_refresh_token("R", Some(&rec), Some((5, Some("J".to_string()))), 50).unwrap();
    assert_eq!((v.user_id, v.session_id, v.jkt), (5, 2, Some("J".to_string())));
    assert!(service.validate_refresh_token("R", Some(&rec), None, 50).is_none());
    assert!(service.validate_refresh_token("R", Some(&rec), Some((5, None)), 100).is_none());
    assert!(service.validate_refresh_token("R", None, Some((5, None)), 50).is_none());
    assert!(service.validate_refresh_token("S", Some(&rec), Some((5, None)), 50).is_none());
    let revoked = RefreshRecord { revoked_at: Some(10), ..rec };
    assert!(service.validate_refresh_token("R", Some(&revoked), Some((5, None)), 50).is_none());
}

#[test]
fn session_thumbprint_is_write_once() {
    let mut s = Session::new(1, 2, None, 100);
    assert!(s.is_active());
    assert_eq!(s.bind_key("A".to_string()), Ok(()));
    assert_eq!(s.bind_key("B".to_string()), Err(SessionError::AlreadyBound));
    assert_eq!(s.bound_key_thumbprint, Some("A".to_string()));
    assert!(s.apply(SessionOp::Touch(150)));
    assert_eq!(s.last_used_at, Some(150));
    assert!(s.revoke(200));
    assert!(!s.revoke(300));
    assert_eq!(s.revoked_at, Some(200));
    assert_eq!(s.touch(400), Err(SessionError::Revoked));
    assert!(!s.apply(SessionOp::BindKey("C".to_string())));
    assert_eq!(s.bound_key_thumbprint, Some("A".to_string()));
    let mut fresh = Session::new(3, 4, None, 0);
    fresh.revoke(1);
    assert_eq!(fresh.bind_key("A".to_string()), Err(SessionError::Revoked));
}

#[test]
fn proof_selection() {
    assert_eq!(select_proof(&vec![]).unwrap_err(), DpopError::MissingProof);
    assert_eq!(select_proof(&vec![Some("a".to_string()), Some("b".to_string())]).unwrap_err(), DpopError::InvalidJwt);
    assert_eq!(select_proof(&vec![None]).unwrap_err(), DpopError::InvalidJwt);
    assert_eq!(select_proof(&vec![Some("a".to_string())]).unwrap(), "a");
}

#[test]
fn proof_header_checks() {
    let okp = |ed25519: bool| Some(ProofJwk::Okp { ed25519, x: "X".to_string() });
    let h = |typ: Option<&str>, eddsa: bool, jwk: Option<ProofJwk>| Some(JoseHeader { typ: typ.map(str::to_string), eddsa, jwk });
    assert_eq!(check_proof_header(&None), Err(DpopError::InvalidJwt));
    assert_eq!(check_proof_header(&h(None, true, okp(true))), Err(DpopError::InvalidTyp));
    assert_eq!(check_proof_header(&h(Some("JWT"), true, okp(true))), Err(DpopError::InvalidTyp));
    assert_eq!(check_proof_header(&h(Some("DPoP+JWT"), false, okp(true))), Err(DpopError::UnsupportedAlg));
    assert_eq!(check_proof_header(&h(Some("dpop+jwt"), true, None)), Err(DpopError::MissingJwk));
    assert_eq!(check_proof_header(&h(Some("dpop+jwt"), true, okp(false))), Err(DpopError::UnsupportedJwk));
    assert_eq!(check_proof_header(&h(Some("dpop+jwt"), true, Some(ProofJwk::Other))), Err(DpopError::UnsupportedJwk));
    assert_eq!(check_proof_header(&h(Some("DPOP+jwt"), true, okp(true))), Ok("X".to_string()));
}

#[test]
fn proof_claim_checks() {
    let p = policy();
    let expected = "https://api.example.com/resource";
    let ok = check_proof_claims(p, full_claims(), "GET", expected, None, 1000).unwrap();
    assert_eq!((ok.jti.as_str(), ok.iat, ok.htm.as_str()), ("j", 1000, "get"));
    for (claims, err) in [
        (ProofClaims { htm: None, ..full_claims() }, DpopError::MissingClaim(ClaimName::Htm)),
        (ProofClaims { htu: None, ..full_claims() }, DpopError::MissingClaim(ClaimName::Htu)),
        (ProofClaims { iat: None, ..full_claims() }, DpopError::MissingClaim(ClaimName::Iat)),
        (ProofClaims { jti: None, ..full_claims() }, DpopError::MissingClaim(ClaimName::Jti)),
        (ProofClaims { htu: Some("https://api.example.com/other".to_string()), ..full_claims() }, DpopError::UriMismatch),
        (ProofClaims { iat: Some(2000), ..full_claims() }, DpopError::InvalidIat),
    ] {
        assert_eq!(check_proof_claims(p, claims, "GET", expected, None, 1000).unwrap_err(), err);
    }
    assert_eq!(check_proof_claims(p, full_claims(), "PUT", expected, None, 1000).unwrap_err(), DpopError::MethodMismatch);
    let nonce = DpopPolicy { require_nonce: true, ..p };
    assert_eq!(check_proof_claims(nonce, full_claims(), "GET", expected, None, 1000).unwrap_err(), DpopError::NonceRequired);
    let with_nonce = ProofClaims { nonce: Some("n".to_string()), ..full_claims() };
    assert!(check_proof_claims(nonce, with_nonce, "GET", expected, None, 1000).is_ok());
    let ath = DpopPolicy { require_ath: true, ..p };
    let bound = ProofClaims { ath: Some(compute_ath("tok")), ..full_claims() };
    assert!(check_proof_claims(ath, bound.clone(), "GET", expected, Some("tok"), 1000).is_ok());
    assert_eq!(check_proof_claims(ath, bound.clone(), "GET", expected, Some("other"), 1000).unwrap_err(), DpopError::AthMismatch);
    assert_eq!(check_proof_claims(ath, bound, "GET", expected, None, 1000).unwrap_err(), DpopError::MissingClaim(ClaimName::Ath));
    assert_eq!(ClaimName::Ath.as_str(), "ath");
}

fn access_claims() -> AccessTokenClaims {
    AccessTokenClaims {
        iss: "iss".to_string(),
        aud: Audience::One("api".to_string()),
        sub: "11111111-1111-1111-1111-111111111111".to_string(),
        exp: 10,
        nbf: None,
        jti: None,
        scope: None,
        roles: None,
        cnf: None,
    }
}

#[test]
fn strict_access_claim_checks() {
    assert!(check_access_claims(access_claims()).is_ok());
    let cases = [
        (AccessTokenClaims { iss: "  ".to_string(), ..access_claims() }, AccessJwtError::EmptyClaim(RequiredClaim::Iss)),
        (AccessTokenClaims { sub: "".to_string(), ..access_claims() }, AccessJwtError::EmptyClaim(RequiredClaim::Sub)),
        (AccessTokenClaims { exp: 0, ..access_claims() }, AccessJwtError::EmptyClaim(RequiredClaim::Exp)),
        (AccessTokenClaims { aud: Audience::Other, ..access_claims() }, AccessJwtError::MissingOrInvalidAud),
        (AccessTokenClaims { sub: "user-1".to_string(), ..access_claims() }, AccessJwtError::InvalidSubUuid),
    ];
    for (c, e) in cases {
        assert_eq!(check_access_claims(c).unwrap_err(), e);
    }
}

#[test]
fn audience_validity() {
    assert!(aud_is_present_and_valid(&Audience::One("api".to_string())));
    assert!(!aud_is_present_and_valid(&Audience::One(" \t".to_string())));
    assert!(aud_is_present_and_valid(&Audience::Many(vec![None, Some(" ".to_string()), Some("x".to_string())])));
    assert!(!aud_is_present_and_valid(&Audience::Many(vec![None, Some("".to_string())])));
    assert!(!aud_is_present_and_valid(&Audience::Many(vec![])));
    assert!(!aud_is_present_and_valid(&Audience::Other));
}

#[test]
fn uuid_subject_parsing() {
    assert_eq!(dpop_auth::access::AuthService::parse_sub_uuid("11111111-1111-1111-1111-111111111111"), Ok(0x1111_1111_1111_1111_1111_1111_1111_1111));
    assert_eq!(dpop_auth::access::AuthService::parse_sub_uuid("nope"), Err(()));
}

#[test]
fn auth_ctx_starts_empty() {
    let c = AuthCtx::new(9);
    assert_eq!(c.user_id, 9);
    assert!(c.scopes.is_empty() && c.roles.is_empty() && c.jti.is_none() && c.dpop_jkt.is_none());
}

#[test]
fn bearer_header_parsing() {
    assert_eq!(bearer_token("Bearer abc.def"), Some("abc.def".to_string()));
    assert_eq!(bearer_token("Bearer "), Some("".to_string()));
    assert_eq!(bearer_token("bearer abc"), None);
    assert_eq!(bearer_token("Bear"), None);
}

#[test]
fn access_claim_members() {
    let c = IssueClaims {
        iss: "i".to_string(),
        aud: "a".to_string(),
        sub: "s".to_string(),
        exp: -5,
        jti: "j".to_string(),
        cnf_jkt: Some("k".to_string()),
    };
    let m = claim_members(&c);
    let names: Vec<&str> = m.iter().map(|(k, _)| k.as_str()).collect();
    assert_eq!(names, vec!["iss", "aud", "sub", "exp", "jti", "cnf"]);
    assert!(matches!(&m[3].1, ClaimValue::Int(-5)));
    assert!(matches!(&m[5].1, ClaimValue::Object(o) if o == &vec![("jkt".to_string(), "k".to_string())]));
    let unbound = IssueClaims { cnf_jkt: None, ..c };
    assert_eq!(claim_members(&unbound).len(), 5);
}

#[test]
fn proof_claims_of_wrong_type_are_unreadable() {
    let ok = read_proof_claims(r#"{"htm":"GET","htu":"u","iat":5,"jti":"j","nonce":null}"#).unwrap();
    assert_eq!((ok.htm, ok.iat, ok.nonce), (Some("GET".to_string()), Some(5), None));
    assert!(read_proof_claims(r#"{"htm":1,"htu":"u","iat":5,"jti":"j"}"#).is_none());
    assert!(read_proof_claims(r#"{"htm":"GET","htu":"u","iat":"5","jti":"j"}"#).is_none());
    let partial = read_proof_claims(r#"{"htu":"u"}"#).unwrap();
    assert!(partial.htm.is_none() && partial.iat.is_none());
}

#[test]
fn access_claims_reading() {
    let c = read_access_claims(r#"{"iss":"i","aud":["x",null],"sub":"s","exp":9,"nbf":3,"roles":["a"],"cnf":{"jkt":"K"}}"#).unwrap();
    assert_eq!((c.iss.as_str(), c.sub.as_str(), c.exp, c.nbf), ("i", "s", 9, Some(3)));
    assert!(matches!(&c.aud, Audience::Many(v) if v == &vec![Some("x".to_string()), None]));
    assert_eq!(c.roles, Some(vec!["a".to_string()]));
    assert_eq!(c.cnf.and_then(|x| x.jkt), Some("K".to_string()));
    assert!(read_access_claims(r#"{"iss":"i","aud":"x","sub":"s"}"#).is_none());
    assert!(read_access_claims(r#"{"iss":"i","aud":"x","sub":"s","exp":-1}"#).is_none());
    assert!(read_access_claims(r#"{"iss":"i","aud":"x","sub":"s","exp":1,"roles":[1]}"#).is_none());
    assert!(read_access_claims(r#"{"iss":"i","aud":"x","sub":"s","exp":1,"cnf":"K"}"#).is_none());
    assert!(matches!(read_access_claims(r#"{"iss":"i","sub":"s","exp":1}"#).unwrap().aud, Audience::Other));
}

#[test]
fn refresh_revocation_by_token() {
    let service = RefreshTokenService::new(10);
    let rec = RefreshRecord {
        id: 1,
        session_id: 2,
        token_hash: vec![0; 32],
        issued_at: 0,
        expires_at: 100,
        used_at: None,
        revoked_at: None,
        replaced_by: None,
    };
    let mut found = Some(rec.clone());
    assert_eq!(service.revoke_by_token(&mut found, 50), 1);
    assert_eq!(found.as_ref().unwrap().revoked_at, Some(50));
    assert_eq!(service.revoke_by_token(&mut found, 60), 0);
    let mut expired = Some(rec);
    assert_eq!(service.revoke_by_token(&mut expired, 100), 0);
    assert_eq!(service.revoke_by_token(&mut None, 1), 0);
}

#[test]
fn random_uuids_are_version_four() {
    let a = dpop_auth::ids::new_uuid_v4().unwrap();
    let b = dpop_auth::ids::new_uuid_v4().unwrap();
    assert_ne!(a, b);
    assert_eq!((a >> 76) & 0xf, 4);
    assert_eq!((a >> 62) & 0x3, 2);
    let text = dpop_auth::ids::new_uuid_v4().map(|u| uuid::Uuid::from_u128(u).to_string()).unwrap();
    assert_eq!(text.len(), 36);
}

#[test]
fn token_request_planning() {
    let req = |g: Option<&str>, sub: Option<u128>, rt: Option<&str>| TokenRequest {
        grant_type: g.map(str::to_string),
        sub,
        jkt: Some("J".to_string()),
        refresh_token: rt.map(str::to_string),
    };
    assert!(matches!(plan_token_request(req(Some("refresh_token"), None, Some("R"))), Ok(TokenGrant::Refresh { refresh_token }) if refresh_token == "R"));
    assert!(matches!(plan_token_request(req(Some("refresh_token"), Some(1), None)), Err(AppError::InvalidRequest(_))));
    assert!(matches!(plan_token_request(req(None, Some(1), None)), Ok(TokenGrant::Issue { sub: 1, jkt: Some(_) })));
    assert!(matches!(plan_token_request(req(Some("password"), Some(2), Some("R"))), Ok(TokenGrant::Issue { sub: 2, .. })));
    assert!(matches!(plan_token_request(req(None, None, None)), Err(AppError::InvalidRequest(_))));
    let pair = dpop_auth::issuer::IssuedTokenPair {
        access_token: "A".to_string(),
        refresh_token: "R".to_string(),
        token_type: "Bearer",
        expires_in: 600,
        session_id: 3,
    };
    let resp = token_response(pair);
    assert_eq!((resp.token_type.as_str(), resp.expires_in, resp.session_id), ("Bearer", 600, Some(3)));
}

#[test]
fn server_error_surface() {
    assert_eq!(AppError::InvalidRequest("x".to_string()).status_code(), 400);
    assert_eq!(AppError::Unauthorized.status_code(), 401);
    assert_eq!(AppError::Internal.status_code(), 500);
    assert_eq!(AppError::Unauthorized.code(), "UNAUTHORIZED");
    assert_eq!(AppError::InvalidRequest("x".to_string()).message(), "invalid request: x");
    assert_eq!(AppError::Internal.message(), "internal server error");
    assert_eq!(AppError::from_config(ConfigError::Missing("K")), AppError::Internal);
    assert_eq!(ConfigError::Missing("AUTH_ISSUER").message(), "missing configuration: AUTH_ISSUER");
    assert_eq!(ConfigError::Invalid("PORT").message(), "invalid configuration: PORT");
}

#[test]
fn api_error_bodies() {
    let b = ApiError::bad_request("C", "m".to_string()).to_response();
    assert_eq!((b.error.code, b.error.message.as_str()), ("C", "m"));
    let n = ApiError::not_found("post");
    assert_eq!(n.status_code(), 404);
    assert_eq!(n.to_response().error.message, "post not found.");
    assert_eq!(ApiError::Internal.to_response().error.code, "INTERNAL_SERVER_ERROR");
    assert!(matches!(ApiError::from_id_codec(IdCodecError::DecodeOutOfRange), ApiError::BadRequest { code: "INVALID_PUBLIC_ID", .. }));
    assert!(matches!(ApiError::from_id_codec(IdCodecError::NegativeId { value: -1 }), ApiError::Internal));
}

#[test]
fn config_helpers() {
    assert_eq!(AppEnv::from_name("PROD"), AppEnv::Production);
    assert_eq!(AppEnv::from_name("production"), AppEnv::Production);
    assert_eq!(AppEnv::from_name("staging"), AppEnv::Development);
    assert!(AppEnv::Production.is_production() && !AppEnv::Development.is_production());
    assert!(parse_flag(Some("TRUE"), false) && parse_flag(Some("1"), false));
    assert!(!parse_flag(Some("yes"), true) && parse_flag(None, true));
    assert_eq!(u64_to_i64(5), Some(5));
    assert_eq!(u64_to_i64(u64::MAX), None);
    let p = build_dpop_policy(true, 60, 300, 300, true, false).unwrap();
    assert_eq!((p.iat_leeway_seconds, p.max_age_seconds, p.replay_ttl_seconds), (60, 300, 300));
    assert!(build_dpop_policy(true, u64::MAX, 300, 300, true, false).is_none());
    assert_eq!(unescape_pem("a\\nb\\\\nc\\"), "a\nb\\\nc\\");
}

#[test]
fn post_and_user_validation() {
    let post = CreatePostRequest { title: "t".to_string(), content: "c".to_string(), author_id: "a".to_string() };
    assert_eq!(post.validate(), Ok(()));
    assert_eq!(CreatePostRequest { title: " ".to_string(), ..post.clone() }.validate(), Err("title is required"));
    assert_eq!(CreatePostRequest { content: "".to_string(), ..post.clone() }.validate(), Err("content is required"));
    assert_eq!(CreatePostRequest { author_id: "\n".to_string(), ..post }.validate(), Err("author_id is required"));
    assert_eq!(UpdatePostRequest { title: None, content: None }.validate(), Ok(()));
    assert_eq!(UpdatePostRequest { title: Some("".to_string()), content: None }.validate(), Err("title cannot be empty"));
    assert_eq!(UpdatePostRequest { title: None, content: Some(" ".to_string()) }.validate(), Err("content cannot be empty"));
    let long = "x".repeat(257);
    assert_eq!(CreateUserRequest { user_name: "n".to_string(), image_url: Some("x".repeat(256)) }.validate(), Ok(()));
    assert_eq!(CreateUserRequest { user_name: "n".to_string(), image_url: Some(long.clone()) }.validate(), Err("image_url must be <= 256 chars"));
    assert_eq!(CreateUserRequest { user_name: " ".to_string(), image_url: None }.validate(), Err("user_name is required"));
    assert_eq!(UpdateUserRequest { user_name: None, image_url: Some(None) }.validate(), Ok(()));
    assert_eq!(UpdateUserRequest { user_name: None, image_url: Some(Some(long)) }.validate(), Err("image_url must be <= 256 chars"));
    assert_eq!(UpdateUserRequest { user_name: Some("".to_string()), image_url: None }.validate(), Err("user_name cannot be empty"));
}

#[test]
fn public_ids() {
    let codec = IdCodec::new(10, "abcdefghijklmnopqrstuvwxyzABCDEFGHIJKLMNOPQRSTUVWXYZ0123456789").unwrap();
    let public = codec.encode(42).unwrap();
    assert!(public.len() >= 10);
    assert_eq!(codec.decode(&public), Ok(42));
    assert_eq!(codec.encode(-1), Err(IdCodecError::NegativeId { value: -1 }));
    assert!(matches!(IdCodec::new(256, "abc"), Err(IdCodecError::InvalidMinLength { value: 256 })));
    assert_eq!(decoded_id(&vec![]), Err(IdCodecError::DecodeInvalidFormat));
    assert_eq!(decoded_id(&vec![1, 2]), Err(IdCodecError::DecodeInvalidFormat));
    assert_eq!(decoded_id(&vec![u64::MAX]), Err(IdCodecError::DecodeOutOfRange));
    assert_eq!(decoded_id(&vec![7]), Ok(7));
    let id: PublicId<PostTag> = PublicId::new(5);
    assert_eq!(id.id, 5);
}

#[test]
fn text_helpers() {
    assert!(eq_ignore_ascii_case("DPoP+JWT", "dpop+jwt"));
    assert!(!eq_ignore_ascii_case("dpop", "dpop+jwt"));
    assert_eq!(to_ascii_lowercase("ÀbC"), "Àbc");
    assert!(is_blank(" \u{3000}\t") && !is_blank(" a "));
    assert_eq!(u64_text(0), "0");
    assert_eq!(u64_text(u64::MAX), "18446744073709551615");
    assert_eq!(i64_text(i64::MIN), "-9223372036854775808");
    assert_eq!(i64_text(-45), "-45");
}

#[test]
fn required_claims_come_in_order() {
    let d = require_claims(full_claims()).unwrap();
    assert_eq!((d.htm.as_str(), d.iat, d.jti.as_str()), ("get", 1000, "j"));
    let missing = ProofClaims { htu: None, jti: None, ..full_claims() };
    assert_eq!(require_claims(missing).unwrap_err(), DpopError::MissingClaim(ClaimName::Htu));
}

#[test]
fn cache_replies_map_to_replay_outcomes() {
    assert_eq!(replay_outcome(Ok(true)), ReplayOutcome::Stored);
    assert_eq!(replay_outcome(Ok(false)), ReplayOutcome::AlreadyPresent);
    assert_eq!(replay_outcome(Err(CacheError::BackendCommand("down".to_string()))), ReplayOutcome::BackendError);
}

#[test]
fn refresh_record_revocation() {
    let mut rec = RefreshRecord {
        id: 1,
        session_id: 2,
        token_hash: vec![1; 32],
        issued_at: 0,
        expires_at: 100,
        used_at: None,
        revoked_at: None,
        replaced_by: None,
    };
    assert_eq!(rec.revoke(10, Some(9)), 1);
    assert_eq!((rec.revoked_at, rec.replaced_by), (Some(10), Some(9)));
    assert_eq!(rec.revoke(20, None), 0);
    assert_eq!((rec.revoked_at, rec.replaced_by), (Some(10), Some(9)));
    assert!(!rec.is_active(5));
}

#[test]
fn error_messages() {
    assert_eq!(IdCodecError::InvalidMinLength { value: 300 }.message(), "SQIDS_MIN_LENGTH must be between 0 and 255, got 300");
    assert_eq!(IdCodecError::NegativeId { value: -3 }.message(), "id must be non-negative, got -3");
    assert_eq!(IdCodecError::DecodeInvalidFormat.message(), "invalid public id format");
    assert_eq!(AccessJwtError::EmptyClaim(RequiredClaim::Sub).message(), "empty 'sub' claim");
    assert_eq!(AccessJwtError::InvalidSubUuid.message(), "invalid 'sub' (expected UUID)");
}

#[test]
fn refresh_token_from_given_bytes() {
    let service = RefreshTokenService::new(60);
    let n = service.refresh_token_from(&vec![0u8; 32], 100).unwrap();
    assert_eq!(n.token, "AAAAAAAAAAAAAAAAAAAAAAAAAAAAAAAAAAAAAAAAAAA");
    assert_eq!(n.token_hash, hash_refresh_token(&n.token));
    assert_eq!((n.issued_at, n.expires_at), (100, 160));
    assert_eq!(service.refresh_token_from(&vec![1u8; 32], i64::MAX - 59).unwrap_err(), AppError::Internal);
    assert!(service.refresh_token_from(&vec![1u8; 32], i64::MAX - 60).is_ok());
    let huge = RefreshTokenService::new(u64::MAX);
    assert!(huge.refresh_token_from(&vec![1u8; 32], -5).is_err());
}
