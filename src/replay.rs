use std::sync::Arc;
use vstd::prelude::*;

use crate::dpop::DpopError;
use crate::text::{owned, push_char, push_str};

verus! {

/// What a replay store answers to an atomic check-and-set of a key.
#[derive(Clone, Copy, Debug, PartialEq, Eq)]
pub enum ReplayOutcome {
    /// The key was absent and is now set with the requested time to live.
    Stored,
    /// The key is already set.
    AlreadyPresent,
    /// The backend could not answer.
    BackendError,
}

/// Errors of a cache backend (transport, command or value).
#[derive(Clone, Debug, PartialEq, Eq)]
pub enum CacheError {
    BackendConnection(String),
    BackendCommand(String),
    InvalidValue(String),
}

/// The replay answer for a cache's `SET NX` reply: set means stored, not set means already
/// present, and any cache error is a backend error, kept apart so that callers fail closed.
pub fn replay_outcome(reply: Result<bool, CacheError>) -> (r: ReplayOutcome)
    ensures
        reply == Ok::<bool, CacheError>(true) ==> r == ReplayOutcome::Stored,
        reply == Ok::<bool, CacheError>(false) ==> r == ReplayOutcome::AlreadyPresent,
        reply is Err ==> r == ReplayOutcome::BackendError,
{
    match reply {
        Ok(true) => ReplayOutcome::Stored,
        Ok(false) => ReplayOutcome::AlreadyPresent,
        Err(_) => ReplayOutcome::BackendError,
    }
}

/// The prefix under which replay keys live in the cache by default.
pub const DEFAULT_REPLAY_PREFIX: &'static str = "dpop:replay";

/// `dpop:<subject>:<jti>`, the key under which a proof's `jti` is claimed.
pub open spec fn replay_key_of(subject: Seq<char>, jti: Seq<char>) -> Seq<char> {
    seq!['d', 'p', 'o', 'p', ':'] + subject + seq![':'] + jti
}

/// The key that claims proof `jti` for `subject`.
pub fn replay_key(subject: &str, jti: &str) -> (r: String)
    ensures
        r@ == replay_key_of(subject@, jti@),
{
    let prefix = "dpop:";
    proof {
        reveal_strlit("dpop:");
        assert(prefix@ =~= seq!['d', 'p', 'o', 'p', ':']);
    }
    let mut out = owned(prefix);
    push_str(&mut out, subject);
    push_char(&mut out, ':');
    push_str(&mut out, jti);
    proof {
        assert(out@ =~= replay_key_of(subject@, jti@));
    }
    out
}

/// Fail-closed admission: only a first-time claim admits the request.
pub fn admit_replay(outcome: ReplayOutcome) -> (r: Result<(), DpopError>)
    ensures
        outcome == ReplayOutcome::Stored ==> r is Ok,
        outcome == ReplayOutcome::AlreadyPresent ==> r == Err::<(), DpopError>(DpopError::Replayed),
        outcome == ReplayOutcome::BackendError ==> r == Err::<(), DpopError>(
            DpopError::ReplayUnavailable,
        ),
{
    match outcome {
        ReplayOutcome::Stored => Ok(()),
        ReplayOutcome::AlreadyPresent => Err(DpopError::Replayed),
        ReplayOutcome::BackendError => Err(DpopError::ReplayUnavailable),
    }
}

/// The time to live a backend is asked for: at least one second.
pub open spec fn effective_ttl(ttl: u64) -> u64 {
    if ttl == 0 {
        1
    } else {
        ttl
    }
}

/// Clamps a time to live to at least one second.
pub fn clamp_ttl(ttl: u64) -> (r: u64)
    ensures
        r == effective_ttl(ttl),
{
    if ttl == 0 {
        1
    } else {
        ttl
    }
}

/// A replay store over a cache, whose keys are partitioned by a prefix.
pub struct ValkeyReplayStore<C> {
    pub cache: Arc<C>,
    pub prefix: String,
}

impl<C> ValkeyReplayStore<C> {
    pub fn new_with_cache(cache: Arc<C>, prefix: String) -> (r: Self)
        ensures
            r.prefix@ == prefix@,
            r.cache == cache,
    {
        ValkeyReplayStore { cache, prefix }
    }

    /// `<prefix>:<raw>`, the cache key of a replay key.
    pub fn key(&self, raw: &str) -> (r: String)
        ensures
            r@ == self.prefix@ + seq![':'] + raw@,
    {
        let mut out = owned(self.prefix.as_str());
        push_char(&mut out, ':');
        push_str(&mut out, raw);
        out
    }
}

/// A claimed key and the second at which its claim lapses.
pub struct ReplayEntry {
    pub key: String,
    pub expires_at: u64,
}

/// An in-memory replay store: each claim lives until its expiry, in seconds.
pub struct MemoryReplayStore {
    pub entries: Vec<ReplayEntry>,
}

/// Model of a store: the claimed keys, each with the second at which its claim lapses.
pub open spec fn entries_model(entries: Seq<ReplayEntry>) -> Seq<(Seq<char>, int)> {
    entries.map_values(|e: ReplayEntry| (e.key@, e.expires_at as int))
}

/// Whether `key` holds a live claim at time `now`.
pub open spec fn claimed(m: Seq<(Seq<char>, int)>, key: Seq<char>, now: int) -> bool {
    exists|i: int| 0 <= i < m.len() && (#[trigger] m[i]).0 == key && m[i].1 > now
}

/// The expiry of a claim made at `now` for `ttl` seconds (clamped to one), capped at the
/// largest clock value.
pub open spec fn expiry(now: u64, ttl: u64) -> int {
    let e = now as int + effective_ttl(ttl) as int;
    if e > u64::MAX as int {
        u64::MAX as int
    } else {
        e
    }
}

/// One check-and-set on the model: whether it stores, and the store after it.
pub open spec fn check_and_store_model(
    m: Seq<(Seq<char>, int)>,
    key: Seq<char>,
    ttl: u64,
    now: u64,
) -> (Seq<(Seq<char>, int)>, bool) {
    if claimed(m, key, now as int) {
        (m, false)
    } else {
        (m.push((key, expiry(now, ttl))), true)
    }
}

/// How many of the presentations of `key` at `times`, in that order, are stored.
pub open spec fn stored_count(
    m: Seq<(Seq<char>, int)>,
    key: Seq<char>,
    ttl: u64,
    times: Seq<u64>,
) -> nat
    decreases times.len(),
{
    if times.len() == 0 {
        0
    } else {
        let (m2, stored) = check_and_store_model(m, key, ttl, times[0]);
        (if stored {
            1nat
        } else {
            0nat
        }) + stored_count(m2, key, ttl, times.drop_first())
    }
}

impl MemoryReplayStore {
    pub open spec fn model(&self) -> Seq<(Seq<char>, int)> {
        entries_model(self.entries@)
    }

    pub fn new() -> (r: Self)
        ensures
            r.model() == Seq::<(Seq<char>, int)>::empty(),
    {
        let r = MemoryReplayStore { entries: Vec::new() };
        assert(r.model() =~= Seq::<(Seq<char>, int)>::empty());
        r
    }

    /// Claims `key` at time `now` for `ttl` seconds (at least one): `Stored` when no live claim
    /// holds it, else `AlreadyPresent`.
    pub fn check_and_store(&mut self, key: &str, ttl: u64, now: u64) -> (r: ReplayOutcome)
        ensures
            r != ReplayOutcome::BackendError,
            (final(self).model(), r == ReplayOutcome::Stored) == check_and_store_model(
                old(self).model(),
                key@,
                ttl,
                now,
            ),
    {
        let mut i: usize = 0;
        while i < self.entries.len()
            invariant
                i <= self.entries.len(),
                forall|j: int|
                    0 <= j < i ==> !((#[trigger] self.model()[j]).0 == key@ && self.model()[j].1
                        > now),
            decreases self.entries.len() - i,
        {
            let e = &self.entries[i];
            if e.expires_at > now && crate::text::same_text(e.key.as_str(), key) {
                proof {
                    assert(self.model()[i as int].0 == key@ && self.model()[i as int].1 > now);
                }
                return ReplayOutcome::AlreadyPresent;
            }
            i += 1;
        }
        let t = clamp_ttl(ttl);
        let expires_at = if t > u64::MAX - now {
            u64::MAX
        } else {
            now + t
        };
        let ghost before = self.model();
        self.entries.push(ReplayEntry { key: owned(key), expires_at });
        proof {
            assert(self.model() =~= before.push((key@, expiry(now, ttl))));
        }
        ReplayOutcome::Stored
    }
}

/// Within one time to live of a stored claim, no presentation of the same key is stored
/// again: however many presentations come at non-decreasing times before the first claim
/// lapses, at most one of them is accepted.
pub proof fn lemma_single_acceptance_within_ttl(
    m: Seq<(Seq<char>, int)>,
    key: Seq<char>,
    ttl: u64,
    times: Seq<u64>,
)
    requires
        forall|i: int, j: int| 0 <= i <= j < times.len() ==> times[i] <= times[j],
        forall|i: int| 0 <= i < times.len() ==> (#[trigger] times[i]) < expiry(times[0], ttl),
    ensures
        stored_count(m, key, ttl, times) <= 1,
    decreases times.len(),
{
    if times.len() > 0 {
        let (m2, stored) = check_and_store_model(m, key, ttl, times[0]);
        let rest = times.drop_first();
        if stored {
            lemma_claimed_blocks(m2, key, ttl, rest, m.len() as int, times[0]);
        } else {
            if rest.len() > 0 {
                assert(rest[0] == times[1]);
                assert forall|i: int| 0 <= i < rest.len() implies (#[trigger] rest[i]) < expiry(
                    rest[0],
                    ttl,
                ) by {
                    assert(rest[i] == times[i + 1]);
                    assert(times[i + 1] < expiry(times[0], ttl));
                    assert(times[0] <= times[1]);
                }
                assert forall|i: int, j: int| 0 <= i <= j < rest.len() implies rest[i]
                    <= rest[j] by {
                    assert(rest[i] == times[i + 1]);
                    assert(rest[j] == times[j + 1]);
                }
            }
            lemma_single_acceptance_within_ttl(m2, key, ttl, rest);
        }
    }
}

/// While a claim made at `t0` is live, no presentation of its key is stored.
proof fn lemma_claimed_blocks(
    m: Seq<(Seq<char>, int)>,
    key: Seq<char>,
    ttl: u64,
    times: Seq<u64>,
    k: int,
    t0: u64,
)
    requires
        0 <= k < m.len(),
        m[k] == (key, expiry(t0, ttl)),
        forall|i: int| 0 <= i < times.len() ==> (#[trigger] times[i]) < expiry(t0, ttl),
    ensures
        stored_count(m, key, ttl, times) == 0,
    decreases times.len(),
{
    if times.len() > 0 {
        assert(claimed(m, key, times[0] as int)) by {
            assert(m[k].0 == key && m[k].1 > times[0]);
        }
        let rest = times.drop_first();
        assert forall|i: int| 0 <= i < rest.len() implies (#[trigger] rest[i]) < expiry(t0, ttl) by {
            assert(rest[i] == times[i + 1]);
        }
        lemma_claimed_blocks(m, key, ttl, rest, k, t0);
    }
}

/// A claim stored at `t0` for `ttl` seconds refuses the same key one second before it lapses
/// and admits it again one second after.
pub proof fn lemma_replay_ttl_boundary(m: Seq<(Seq<char>, int)>, key: Seq<char>, ttl: u64, t0: u64)
    requires
        ttl >= 1,
        t0 as int + ttl + 1 <= u64::MAX,
        !claimed(m, key, t0 as int),
    ensures
        check_and_store_model(m, key, ttl, t0).1,
        !check_and_store_model(
            check_and_store_model(m, key, ttl, t0).0,
            key,
            ttl,
            (t0 + ttl - 1) as u64,
        ).1,
        check_and_store_model(
            check_and_store_model(m, key, ttl, t0).0,
            key,
            ttl,
            (t0 + ttl + 1) as u64,
        ).1,
{
    let m2 = m.push((key, expiry(t0, ttl)));
    assert(m2[m.len() as int] == (key, expiry(t0, ttl)));
    assert(claimed(m2, key, (t0 + ttl - 1) as int));
    assert forall|i: int| 0 <= i < m2.len() && (#[trigger] m2[i]).0 == key implies m2[i].1 <= t0 + ttl + 1 by {
        if i < m.len() {
            assert(m2[i] == m[i]);
        }
    }
}

/// Of two presentations of a key, the first on a store where the key is not claimed and the
/// second within the time to live of the first, the first is stored and the second refused.
pub proof fn lemma_second_presentation_refused(
    m: Seq<(Seq<char>, int)>,
    key: Seq<char>,
    ttl: u64,
    t1: u64,
    t2: u64,
)
    requires
        !claimed(m, key, t1 as int),
        t1 <= t2,
        (t2 as int) < expiry(t1, ttl),
    ensures
        check_and_store_model(m, key, ttl, t1).1,
        !check_and_store_model(check_and_store_model(m, key, ttl, t1).0, key, ttl, t2).1,
{
    let m2 = m.push((key, expiry(t1, ttl)));
    assert(m2[m.len() as int] == (key, expiry(t1, ttl)));
    assert(claimed(m2, key, t2 as int));
}

} // verus!
