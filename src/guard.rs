use vstd::prelude::*;

use crate::access::{AccessJwtError, AuthCtx, AuthService};
use crate::dpop::{as_opt_str, now_unix, proof_outcome, verify_proof_at, DpopError, ProofRequest, ProofRequestView};
use crate::htu::opt_str;
use crate::ids::{uuid_text, uuid_text_of};
use crate::replay::{expiry, lemma_single_acceptance_within_ttl, replay_key, replay_key_of, stored_count};
use crate::text::{chars_of, push_char};

verus! {

/// Why a protected request was refused; the client only ever sees 401.
#[derive(Clone, Copy, Debug, PartialEq, Eq)]
pub enum AuthRejection {
    /// No `Authorization: Bearer <token>` header.
    MissingBearer,
    Access(AccessJwtError),
    Dpop(DpopError),
}

/// A request whose token and proof passed; the replay claim, when there is one, remains to be
/// made before the request is admitted.
#[derive(Clone, Debug)]
pub struct Admission {
    pub ctx: AuthCtx,
    /// The key to claim in the replay store and its time to live in seconds.
    pub replay_claim: Option<(String, u64)>,
}

pub open spec fn bearer_prefix() -> Seq<char> {
    seq!['B', 'e', 'a', 'r', 'e', 'r', ' ']
}

/// The token of an `Authorization` value `Bearer <token>`.
pub open spec fn bearer_of(h: Seq<char>) -> Option<Seq<char>> {
    if h.len() >= 7 && h.take(7) == bearer_prefix() {
        Some(h.skip(7))
    } else {
        None
    }
}

/// The token of an `Authorization` header value, which must start with `Bearer `.
pub fn bearer_token(authorization: &str) -> (r: Option<String>)
    ensures
        match r {
            Some(t) => bearer_of(authorization@) == Some(t@),
            None => bearer_of(authorization@) is None,
        },
{
    let cs = chars_of(authorization);
    if cs.len() < 7 {
        return None;
    }
    let prefix = chars_of("Bearer ");
    proof {
        reveal_strlit("Bearer ");
        assert("Bearer "@ =~= bearer_prefix());
    }
    let mut i: usize = 0;
    while i < 7
        invariant
            i <= 7,
            cs@ == authorization@,
            cs@.len() >= 7,
            prefix@ == bearer_prefix(),
            forall|j: int| 0 <= j < i ==> cs@[j] == bearer_prefix()[j],
        decreases 7 - i,
    {
        if cs[i] != prefix[i] {
            proof {
                assert(authorization@.take(7)[i as int] != bearer_prefix()[i as int]);
            }
            return None;
        }
        i += 1;
    }
    proof {
        assert(authorization@.take(7) =~= bearer_prefix());
    }
    let mut out = String::new();
    let mut k: usize = 7;
    while k < cs.len()
        invariant
            7 <= k <= cs.len(),
            cs@ == authorization@,
            out@ == authorization@.subrange(7, k as int),
        decreases cs.len() - k,
    {
        push_char(&mut out, cs[k]);
        k += 1;
        assert(out@ =~= authorization@.subrange(7, k as int));
    }
    assert(out@ =~= authorization@.skip(7));
    Some(out)
}

pub open spec fn claim_view(c: Option<(String, u64)>) -> Option<(Seq<char>, u64)> {
    match c {
        Some((k, t)) => Some((k@, t)),
        None => None,
    }
}

/// The outcome of a protected request at `now`, in order: a bearer token, the access token,
/// then the proof bound to it; on success the subject and, where a proof was read, the replay
/// claim `dpop:<subject>:<jti of that proof>` with the policy's time to live.
pub open spec fn authorize_outcome(
    auth: AuthService,
    authorization: Option<Seq<char>>,
    req: ProofRequestView,
    now: int,
) -> Result<(u128, Option<(Seq<char>, u64)>), AuthRejection> {
    match authorization {
        None => Err(AuthRejection::MissingBearer),
        Some(h) => match bearer_of(h) {
            None => Err(AuthRejection::MissingBearer),
            Some(t) => match auth.outcome(t, now) {
                Err(e) => Err(AuthRejection::Access(e)),
                Ok((user, jkt)) => match proof_outcome(
                    auth.policy(),
                    req,
                    Some(t),
                    jkt,
                    auth.base_url(),
                    now,
                ) {
                    Err(e) => Err(AuthRejection::Dpop(e)),
                    Ok(None) => Ok((user, None)),
                    Ok(Some(v)) => Ok(
                        (
                            user,
                            Some(
                                (
                                    replay_key_of(uuid_text_of(user), v.jti),
                                    auth.policy().replay_ttl_seconds,
                                ),
                            ),
                        ),
                    ),
                },
            },
        },
    }
}

/// The result of `authorize_at` against its outcome.
pub open spec fn admits(
    r: Result<Admission, AuthRejection>,
    outcome: Result<(u128, Option<(Seq<char>, u64)>), AuthRejection>,
) -> bool {
    match r {
        Ok(a) => outcome == Ok::<(u128, Option<(Seq<char>, u64)>), AuthRejection>(
            (a.ctx.user_id, claim_view(a.replay_claim)),
        ) && a.ctx.jti is None && a.ctx.dpop_jkt is None,
        Err(e) => outcome == Err::<(u128, Option<(Seq<char>, u64)>), AuthRejection>(e),
    }
}

/// The checks of a protected request at time `now`; see `authorize_outcome`.
pub fn authorize_at(
    auth: &AuthService,
    authorization: Option<&str>,
    request: &ProofRequest,
    now: i64,
) -> (r: Result<Admission, AuthRejection>)
    ensures
        admits(r, authorize_outcome(*auth, opt_str(authorization), request@, now as int)),
{
    let header = match authorization {
        Some(h) => h,
        None => return Err(AuthRejection::MissingBearer),
    };
    let token = match bearer_token(header) {
        Some(t) => t,
        None => return Err(AuthRejection::MissingBearer),
    };
    let claims = match auth.verify_verified_at(token.as_str(), now) {
        Ok(c) => c,
        Err(e) => return Err(AuthRejection::Access(e)),
    };
    let policy = auth.dpop_policy();
    let verified = match verify_proof_at(
        policy,
        request,
        Some(token.as_str()),
        as_opt_str(&claims.cnf_jkt),
        auth.public_base_url(),
        now,
    ) {
        Ok(v) => v,
        Err(e) => return Err(AuthRejection::Dpop(e)),
    };
    let replay_claim = match verified {
        Some(dpop) => {
            let subject = uuid_text(claims.user_id);
            Some((replay_key(subject.as_str(), dpop.jti.as_str()), policy.replay_ttl_seconds))
        },
        None => None,
    };
    Ok(Admission { ctx: AuthCtx::new(claims.user_id), replay_claim })
}

/// The checks of a protected request against the current time; see `authorize_outcome`.
pub fn authorize(
    auth: &AuthService,
    authorization: Option<&str>,
    request: &ProofRequest,
) -> (r: Result<Admission, AuthRejection>)
    ensures
        exists|now: i64|
            #![trigger authorize_outcome(*auth, opt_str(authorization), request@, now as int)]
            admits(r, authorize_outcome(*auth, opt_str(authorization), request@, now as int)),
{
    let now = now_unix();
    authorize_at(auth, authorization, request, now)
}

/// Every accepted presentation of one request (the same bearer token and the same proof)
/// claims the same replay key with the same time to live, whenever it comes; with the replay
/// store's law, at most one of them within that time to live is admitted.
pub proof fn lemma_same_request_same_claim(
    auth: AuthService,
    authorization: Option<Seq<char>>,
    req: ProofRequestView,
    t1: int,
    t2: int,
)
    requires
        authorize_outcome(auth, authorization, req, t1) matches Ok((_, Some(_))),
        authorize_outcome(auth, authorization, req, t2) matches Ok((_, Some(_))),
    ensures
        authorize_outcome(auth, authorization, req, t1)->Ok_0 == authorize_outcome(
            auth,
            authorization,
            req,
            t2,
        )->Ok_0,
{
}

/// Presentations of one request (the same bearer token and proof) at non-decreasing times,
/// all within the time to live of the first: each accepted one claims the first one's replay
/// key and time to live, and the replay store admits at most one of them.
pub proof fn lemma_single_admission_within_ttl(
    auth: AuthService,
    authorization: Option<Seq<char>>,
    req: ProofRequestView,
    m: Seq<(Seq<char>, int)>,
    times: Seq<u64>,
)
    requires
        times.len() > 0,
        forall|i: int|
            0 <= i < times.len() ==> #[trigger] authorize_outcome(
                auth,
                authorization,
                req,
                times[i] as int,
            ) matches Ok((_, Some(_))),
        forall|i: int, j: int| 0 <= i <= j < times.len() ==> times[i] <= times[j],
        forall|i: int|
            0 <= i < times.len() ==> (#[trigger] times[i]) < expiry(
                times[0],
                (authorize_outcome(auth, authorization, req, times[0] as int)->Ok_0.1->0).1,
            ),
    ensures
        ({
            let (key, ttl) = authorize_outcome(auth, authorization, req, times[0] as int)->Ok_0.1->0;
            &&& forall|i: int|
                0 <= i < times.len() ==> (#[trigger] authorize_outcome(
                    auth,
                    authorization,
                    req,
                    times[i] as int,
                )->Ok_0.1) == Some((key, ttl))
            &&& stored_count(m, key, ttl, times) <= 1
        }),
{
    let (key, ttl) = authorize_outcome(auth, authorization, req, times[0] as int)->Ok_0.1->0;
    assert forall|i: int| 0 <= i < times.len() implies (#[trigger] authorize_outcome(
        auth,
        authorization,
        req,
        times[i] as int,
    )->Ok_0.1) == Some((key, ttl)) by {
        lemma_same_request_same_claim(auth, authorization, req, times[0] as int, times[i] as int);
    }
    lemma_single_acceptance_within_ttl(m, key, ttl, times);
}

} // verus!
