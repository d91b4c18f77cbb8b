//! A token bucket per client: each request spends one token, and tokens come
//! back with time at the configured rate, up to the burst size.

use crate::middleware::client_addr::ClientAddr;
use std::collections::HashMap;
use std::time::Instant;
use vstd::prelude::*;
use vstd::std_specs::hash::obeys_key_model;

verus! {

/// Nanoseconds in one minute.
pub const NANOS_PER_MINUTE: u64 = 60_000_000_000;

/// Nanoseconds in one second.
pub const NANOS_PER_SECOND: u64 = 1_000_000_000;

/// The refill rate and the capacity shared by all buckets of one limiter.
#[derive(Clone, Copy, Debug)]
pub struct RateLimitConfig {
    pub requests_per_minute: u32,
    pub burst_size: u32,
}

impl Default for RateLimitConfig {
    fn default() -> (config: Self)
        ensures
            config.requests_per_minute == 60,
            config.burst_size == 10,
    {
        Self { requests_per_minute: 60, burst_size: 10 }
    }
}

impl RateLimitConfig {
    /// Both numbers are positive.
    pub open spec fn valid(self) -> bool {
        self.requests_per_minute > 0 && self.burst_size > 0
    }

    pub fn new(requests_per_minute: u32, burst_size: u32) -> (config: Self)
        ensures
            config.requests_per_minute == requests_per_minute,
            config.burst_size == burst_size,
    {
        Self { requests_per_minute, burst_size }
    }

    pub fn strict() -> (config: Self)
        ensures
            config.requests_per_minute == 30,
            config.burst_size == 5,
    {
        Self::new(30, 5)
    }

    pub fn lenient() -> (config: Self)
        ensures
            config.requests_per_minute == 120,
            config.burst_size == 20,
    {
        Self::new(120, 20)
    }

    #[verifier::when_used_as_spec(valid)]
    pub fn is_valid(self) -> (ok: bool)
        ensures
            ok == self.valid(),
    {
        self.requests_per_minute > 0 && self.burst_size > 0
    }
}

/// The whole tokens that `elapsed_nanos` of time earn at `requests_per_minute`:
/// one token every `60 / requests_per_minute` seconds, fractions dropped.
pub open spec fn whole_tokens(elapsed_nanos: nat, requests_per_minute: nat) -> nat {
    elapsed_nanos * requests_per_minute / 60_000_000_000
}

/// The tokens of a bucket after a refill check: earned tokens are added up to
/// the burst size, and a check that earns nothing changes nothing.
pub open spec fn tokens_after_refill(tokens: nat, config: RateLimitConfig, elapsed_nanos: nat) -> nat {
    let earned = whole_tokens(elapsed_nanos, config.requests_per_minute as nat);
    if earned == 0 {
        tokens
    } else if tokens + earned < config.burst_size {
        tokens + earned
    } else {
        config.burst_size as nat
    }
}

/// Whether a request is admitted: after the refill check a token is left.
pub open spec fn admits(tokens: nat, config: RateLimitConfig, elapsed_nanos: nat) -> bool {
    tokens_after_refill(tokens, config, elapsed_nanos) > 0
}

/// The tokens of a bucket after one request: refilled, then one spent if any
/// was there.
pub open spec fn tokens_after_request(tokens: nat, config: RateLimitConfig, elapsed_nanos: nat) -> nat {
    let refilled = tokens_after_refill(tokens, config, elapsed_nanos);
    if refilled > 0 {
        (refilled - 1) as nat
    } else {
        0
    }
}

/// The wait reported with a denial: the time one token takes, in nanoseconds.
pub open spec fn retry_after_nanos(config: RateLimitConfig) -> nat {
    (60_000_000_000int / (config.requests_per_minute as int)) as nat
}

/// The tokens of a bucket after a run of requests, one for each entry of
/// `elapsed`, in order: each entry is the time since the last refill that the
/// clock gave at that request.
pub open spec fn tokens_after_requests(tokens: nat, config: RateLimitConfig, elapsed: Seq<nat>) -> nat
    decreases elapsed.len(),
{
    if elapsed.len() == 0 {
        tokens
    } else {
        tokens_after_request(
            tokens_after_requests(tokens, config, elapsed.drop_last()),
            config,
            elapsed.last(),
        )
    }
}

/// Whether the request number `k` of a run is admitted, counting from zero.
pub open spec fn admits_nth(tokens: nat, config: RateLimitConfig, elapsed: Seq<nat>, k: int) -> bool {
    admits(tokens_after_requests(tokens, config, elapsed.take(k)), config, elapsed[k])
}

/// A bucket that starts within its burst size stays within it, whatever
/// requests come and whatever the clock says at each.
pub proof fn lemma_tokens_stay_in_range(tokens: nat, config: RateLimitConfig, elapsed: Seq<nat>)
    requires
        tokens <= config.burst_size,
    ensures
        0 <= tokens_after_requests(tokens, config, elapsed) <= config.burst_size,
    decreases elapsed.len(),
{
    if elapsed.len() > 0 {
        lemma_tokens_stay_in_range(tokens, config, elapsed.drop_last());
    }
}

/// Requests that come too fast to earn a token spend the bucket one by one.
proof fn lemma_quick_requests_spend(tokens: nat, config: RateLimitConfig, elapsed: Seq<nat>)
    requires
        forall|i: int|
            0 <= i < elapsed.len() ==> whole_tokens(#[trigger] elapsed[i], config.requests_per_minute as nat)
                == 0,
    ensures
        tokens_after_requests(tokens, config, elapsed) == if elapsed.len() < tokens {
            tokens - elapsed.len()
        } else {
            0
        },
    decreases elapsed.len(),
{
    if elapsed.len() > 0 {
        let before = elapsed.drop_last();
        assert forall|i: int| 0 <= i < before.len() implies whole_tokens(
            #[trigger] before[i],
            config.requests_per_minute as nat,
        ) == 0 by {
            assert(before[i] == elapsed[i]);
        }
        lemma_quick_requests_spend(tokens, config, before);
        assert(whole_tokens(elapsed[elapsed.len() - 1], config.requests_per_minute as nat) == 0);
    }
}

/// Of requests on a full bucket that come too fast to earn a token, exactly
/// the first `burst_size` are admitted: request `k`, counting from zero, is
/// admitted if and only if `k < burst_size`.
pub proof fn lemma_burst_then_denied(config: RateLimitConfig, elapsed: Seq<nat>, k: int)
    requires
        forall|i: int|
            0 <= i < elapsed.len() ==> whole_tokens(#[trigger] elapsed[i], config.requests_per_minute as nat)
                == 0,
        0 <= k < elapsed.len(),
    ensures
        admits_nth(config.burst_size as nat, config, elapsed, k) <==> k < config.burst_size,
{
    let before = elapsed.take(k);
    assert forall|i: int| 0 <= i < before.len() implies whole_tokens(
        #[trigger] before[i],
        config.requests_per_minute as nat,
    ) == 0 by {
        assert(before[i] == elapsed[i]);
    }
    lemma_quick_requests_spend(config.burst_size as nat, config, before);
    assert(whole_tokens(elapsed[k], config.requests_per_minute as nat) == 0);
}

/// The whole tokens earned, held to what a `u32` can count.
fn earned_tokens(elapsed_nanos: u128, requests_per_minute: u32) -> (earned: u32)
    ensures
        earned as nat == if whole_tokens(elapsed_nanos as nat, requests_per_minute as nat) < u32::MAX {
            whole_tokens(elapsed_nanos as nat, requests_per_minute as nat)
        } else {
            u32::MAX as nat
        },
{
    match elapsed_nanos.checked_mul(requests_per_minute as u128) {
        Some(product) => {
            let whole: u128 = product / (NANOS_PER_MINUTE as u128);
            if whole < u32::MAX as u128 {
                whole as u32
            } else {
                u32::MAX
            }
        },
        None => u32::MAX,
    }
}

/// The bucket of one client.
#[derive(Debug)]
pub struct ClientState {
    pub tokens: u32,
    pub last_refill: Instant,
}

impl ClientState {
    /// The bucket after a refill check made at `now`, `elapsed_nanos` after the
    /// last refill. The time of the last refill moves only when a token came.
    pub open spec fn after_refill(self, config: RateLimitConfig, elapsed_nanos: nat, now: Instant) -> ClientState {
        ClientState {
            tokens: tokens_after_refill(self.tokens as nat, config, elapsed_nanos) as u32,
            last_refill: if whole_tokens(elapsed_nanos, config.requests_per_minute as nat) > 0 {
                now
            } else {
                self.last_refill
            },
        }
    }

    /// The bucket after a request made at `now`, `elapsed_nanos` after the
    /// last refill.
    pub open spec fn after_request(self, config: RateLimitConfig, elapsed_nanos: nat, now: Instant) -> ClientState {
        ClientState {
            tokens: tokens_after_request(self.tokens as nat, config, elapsed_nanos) as u32,
            last_refill: self.after_refill(config, elapsed_nanos, now).last_refill,
        }
    }

    /// A full bucket, last refilled at `now`.
    pub fn full_at(burst_size: u32, now: Instant) -> (state: Self)
        ensures
            state == (ClientState { tokens: burst_size, last_refill: now }),
    {
        Self { tokens: burst_size, last_refill: now }
    }

    /// A full bucket, last refilled at the moment of the call.
    pub fn new(burst_size: u32) -> (state: Self)
        ensures
            state.tokens == burst_size,
    {
        Self::full_at(burst_size, Instant::now())
    }

    /// The refill check for a reading `now` of the clock that lies
    /// `elapsed_nanos` after the last refill.
    pub fn refill_after(&mut self, config: &RateLimitConfig, elapsed_nanos: u128, now: Instant)
        ensures
            *final(self) == old(self).after_refill(*config, elapsed_nanos as nat, now),
            old(self).tokens <= config.burst_size ==> final(self).tokens <= config.burst_size,
    {
        let earned = earned_tokens(elapsed_nanos, config.requests_per_minute);
        if earned > 0 {
            let total: u64 = self.tokens as u64 + earned as u64;
            self.tokens = if total < config.burst_size as u64 {
                total as u32
            } else {
                config.burst_size
            };
            self.last_refill = now;
        }
    }

    /// One request at a reading `now` of the clock that lies `elapsed_nanos`
    /// after the last refill: refill, then spend a token if there is one.
    pub fn can_consume_after(&mut self, config: &RateLimitConfig, elapsed_nanos: u128, now: Instant) -> (admitted: bool)
        ensures
            admitted == admits(old(self).tokens as nat, *config, elapsed_nanos as nat),
            *final(self) == old(self).after_request(*config, elapsed_nanos as nat, now),
            old(self).tokens <= config.burst_size ==> final(self).tokens <= config.burst_size,
    {
        self.refill_after(config, elapsed_nanos, now);
        if self.tokens > 0 {
            self.tokens -= 1;
            true
        } else {
            false
        }
    }

    /// The refill check at the moment of the call. How much time has passed
    /// is for the clock to say, so the bucket is what some elapsed time makes
    /// of it.
    pub fn refill_tokens(&mut self, config: &RateLimitConfig)
        ensures
            exists|elapsed_nanos: nat, now: Instant|
                *final(self) == #[trigger] old(self).after_refill(*config, elapsed_nanos, now),
            old(self).tokens <= config.burst_size ==> final(self).tokens <= config.burst_size,
    {
        let now = Instant::now();
        let elapsed_nanos = now.duration_since(self.last_refill).as_nanos();
        self.refill_after(config, elapsed_nanos, now);
    }

    /// One request at the moment of the call.
    pub fn can_consume(&mut self, config: &RateLimitConfig) -> (admitted: bool)
        ensures
            exists|elapsed_nanos: nat, now: Instant|
                *final(self) == #[trigger] old(self).after_request(*config, elapsed_nanos, now)
                    && admitted == admits(old(self).tokens as nat, *config, elapsed_nanos),
            old(self).tokens <= config.burst_size ==> final(self).tokens <= config.burst_size,
    {
        let now = Instant::now();
        let elapsed_nanos = now.duration_since(self.last_refill).as_nanos();
        self.can_consume_after(config, elapsed_nanos, now)
    }

    /// The wait to report with a denial, in nanoseconds: the time that one
    /// token takes at the configured rate, whatever the bucket has gathered.
    pub fn time_until_next_token(&self, config: &RateLimitConfig) -> (nanos: u64)
        requires
            config.requests_per_minute > 0,
        ensures
            nanos == retry_after_nanos(*config),
    {
        NANOS_PER_MINUTE / (config.requests_per_minute as u64)
    }
}


/// The bucket that a request of `key` works on: the one on record, or a full
/// one last refilled at `now` for a client seen for the first time.
pub open spec fn bucket_or_full<K>(clients: Map<K, ClientState>, key: K, burst_size: u32, now: Instant) -> ClientState {
    if clients.contains_key(key) {
        clients[key]
    } else {
        ClientState { tokens: burst_size, last_refill: now }
    }
}

/// One request of `key` on the buckets of one address family.
fn admit_in<K: Eq + std::hash::Hash + Copy>(
    clients: &mut HashMap<K, ClientState>,
    key: K,
    config: &RateLimitConfig,
    elapsed_nanos: u128,
    now: Instant,
) -> (admitted: bool)
    requires
        obeys_key_model::<K>(),
    ensures
        admitted == admits(
            bucket_or_full(old(clients)@, key, config.burst_size, now).tokens as nat,
            *config,
            elapsed_nanos as nat,
        ),
        final(clients)@ == old(clients)@.insert(
            key,
            bucket_or_full(old(clients)@, key, config.burst_size, now).after_request(
                *config,
                elapsed_nanos as nat,
                now,
            ),
        ),
{
    broadcast use vstd::std_specs::hash::group_hash_axioms;

    let mut state = match clients.remove(&key) {
        Some(state) => state,
        None => ClientState::full_at(config.burst_size, now),
    };
    let admitted = state.can_consume_after(config, elapsed_nanos, now);
    clients.insert(key, state);
    admitted
}

/// When the bucket of `key` was last refilled, if there is one.
fn last_refill_in<K: Eq + std::hash::Hash>(clients: &HashMap<K, ClientState>, key: &K) -> (found: Option<Instant>)
    requires
        obeys_key_model::<K>(),
    ensures
        found == if clients@.contains_key(*key) {
            Some(clients@[*key].last_refill)
        } else {
            None
        },
{
    broadcast use vstd::std_specs::hash::group_hash_axioms;

    match clients.get(key) {
        Some(state) => Some(state.last_refill),
        None => None,
    }
}

/// The admission controller: one configuration and one bucket per client
/// address. A caller that shares it among tasks holds it behind one lock;
/// each method is one critical section.
pub struct RateLimiter {
    config: RateLimitConfig,
    v4_clients: HashMap<u32, ClientState>,
    v6_clients: HashMap<u128, ClientState>,
}

impl RateLimiter {
    /// What every limiter keeps: a rate to measure the wait of a denied
    /// client by, and no bucket over the burst size.
    pub closed spec fn wf(&self) -> bool {
        &&& self.config.requests_per_minute > 0
        &&& forall|key: u32| #[trigger]
            self.v4_clients@.contains_key(key) ==> self.v4_clients@[key].tokens <= self.config.burst_size
        &&& forall|key: u128| #[trigger]
            self.v6_clients@.contains_key(key) ==> self.v6_clients@[key].tokens <= self.config.burst_size
    }

    /// The configuration that the limiter was made with.
    pub closed spec fn spec_config(&self) -> RateLimitConfig {
        self.config
    }

    /// The buckets on record, by client address.
    pub closed spec fn buckets(&self) -> Map<ClientAddr, ClientState> {
        Map::new(
            |addr: ClientAddr|
                match addr {
                    ClientAddr::V4(key) => self.v4_clients@.contains_key(key),
                    ClientAddr::V6(key) => self.v6_clients@.contains_key(key),
                },
            |addr: ClientAddr|
                match addr {
                    ClientAddr::V4(key) => self.v4_clients@[key],
                    ClientAddr::V6(key) => self.v6_clients@[key],
                },
        )
    }

    /// The bucket that a request of `ip` at `now` works on.
    pub open spec fn bucket_at(&self, ip: ClientAddr, now: Instant) -> ClientState {
        bucket_or_full(self.buckets(), ip, self.spec_config().burst_size, now)
    }

    /// No bucket on record holds more than the burst size.
    pub open spec fn buckets_in_range(&self) -> bool {
        forall|ip: ClientAddr| #[trigger]
            self.buckets().contains_key(ip) ==> self.buckets()[ip].tokens <= self.spec_config().burst_size
    }

    /// The limiter after a request of `ip` at `now`, `elapsed_nanos` after
    /// the last refill of its bucket, and whether the request was limited.
    pub open spec fn limits(&self, ip: ClientAddr, elapsed_nanos: nat, now: Instant, after: Self, limited: bool) -> bool {
        &&& after.spec_config() == self.spec_config()
        &&& after.buckets() == self.buckets().insert(
            ip,
            self.bucket_at(ip, now).after_request(self.spec_config(), elapsed_nanos, now),
        )
        &&& limited == !admits(self.bucket_at(ip, now).tokens as nat, self.spec_config(), elapsed_nanos)
    }

    /// A limiter without buckets.
    pub fn new(config: RateLimitConfig) -> (limiter: Self)
        requires
            config.requests_per_minute > 0,
        ensures
            limiter.wf(),
            limiter.spec_config() == config,
            limiter.buckets() == (Map::<ClientAddr, ClientState>::empty()),
    {
        let limiter = Self { config, v4_clients: HashMap::new(), v6_clients: HashMap::new() };
        assert(limiter.buckets() =~= Map::<ClientAddr, ClientState>::empty());
        limiter
    }

    #[verifier::when_used_as_spec(spec_config)]
    pub fn config(&self) -> (config: RateLimitConfig)
        ensures
            config == self.spec_config(),
    {
        self.config
    }

    /// A limiter has a rate, and none of its buckets holds more than the
    /// burst size.
    pub proof fn lemma_buckets_in_range(&self)
        requires
            self.wf(),
        ensures
            self.spec_config().requests_per_minute > 0,
            self.buckets_in_range(),
    {
    }

    /// The tokens left in the bucket of `ip`, if there is one. A bucket never
    /// holds more than the burst size.
    pub fn remaining(&self, ip: ClientAddr) -> (tokens: Option<u32>)
        requires
            self.wf(),
        ensures
            tokens == if self.buckets().contains_key(ip) {
                Some(self.buckets()[ip].tokens)
            } else {
                None
            },
            tokens matches Some(left) ==> left <= self.spec_config().burst_size,
    {
        broadcast use vstd::std_specs::hash::group_hash_axioms;

        let found = match ip {
            ClientAddr::V4(key) => self.v4_clients.get(&key),
            ClientAddr::V6(key) => self.v6_clients.get(&key),
        };
        match found {
            Some(state) => Some(state.tokens),
            None => None,
        }
    }

    /// One request of `ip` at a reading `now` of the clock that lies
    /// `elapsed_nanos` after the last refill of its bucket. Returns whether
    /// the request is limited, and the wait to report if it is, in
    /// nanoseconds.
    pub fn is_rate_limited_after(&mut self, ip: ClientAddr, elapsed_nanos: u128, now: Instant) -> (result: (bool, u64))
        requires
            old(self).wf(),
        ensures
            final(self).wf(),
            old(self).limits(ip, elapsed_nanos as nat, now, *final(self), result.0),
            result.1 == if result.0 {
                retry_after_nanos(old(self).spec_config())
            } else {
                0
            },
    {
        broadcast use vstd::std_specs::hash::group_hash_axioms;

        let config = self.config;
        let admitted = match ip {
            ClientAddr::V4(key) => admit_in(&mut self.v4_clients, key, &config, elapsed_nanos, now),
            ClientAddr::V6(key) => admit_in(&mut self.v6_clients, key, &config, elapsed_nanos, now),
        };
        assert(self.buckets() =~= old(self).buckets().insert(
            ip,
            old(self).bucket_at(ip, now).after_request(config, elapsed_nanos as nat, now),
        ));
        if admitted {
            (false, 0)
        } else {
            (true, NANOS_PER_MINUTE / (config.requests_per_minute as u64))
        }
    }

    /// One request of `ip` at the moment of the call. How much time has
    /// passed since the last refill is for the clock to say.
    pub fn is_rate_limited(&mut self, ip: ClientAddr) -> (result: (bool, u64))
        requires
            old(self).wf(),
        ensures
            final(self).wf(),
            exists|elapsed_nanos: nat, now: Instant| #[trigger]
                old(self).limits(ip, elapsed_nanos, now, *final(self), result.0),
            result.1 == if result.0 {
                retry_after_nanos(old(self).spec_config())
            } else {
                0
            },
    {
        broadcast use vstd::std_specs::hash::group_hash_axioms;

        let now = Instant::now();
        let last_refill = match ip {
            ClientAddr::V4(key) => last_refill_in(&self.v4_clients, &key),
            ClientAddr::V6(key) => last_refill_in(&self.v6_clients, &key),
        };
        let elapsed_nanos = match last_refill {
            Some(earlier) => now.duration_since(earlier).as_nanos(),
            None => 0,
        };
        self.is_rate_limited_after(ip, elapsed_nanos, now)
    }
}

/// What a denied request is told: the headers `Retry-After`,
/// `X-RateLimit-Limit` and `X-RateLimit-Remaining`.
#[derive(Clone, Copy, Debug, PartialEq, Eq, Structural)]
pub struct RateLimitExceeded {
    /// The wait before the next attempt, in whole seconds.
    pub retry_after_secs: u64,
    /// The configured requests per minute.
    pub limit: u32,
    /// The tokens left: none, or the request would have passed.
    pub remaining: u32,
}

/// What a decision `(limited, retry_after_nanos)` of a limiter means for the
/// response: nothing where the request passes, the three headers where it is
/// limited, the wait cut down to whole seconds.
pub open spec fn denial_of(decision: (bool, u64), config: RateLimitConfig) -> Option<RateLimitExceeded> {
    if decision.0 {
        Some(
            RateLimitExceeded {
                retry_after_secs: decision.1 / 1_000_000_000,
                limit: config.requests_per_minute,
                remaining: 0,
            },
        )
    } else {
        None
    }
}

/// The response to a decision `(limited, retry_after_nanos)` of a limiter
/// with the configuration `config`.
pub fn denial_for(decision: (bool, u64), config: RateLimitConfig) -> (denial: Option<RateLimitExceeded>)
    ensures
        denial == denial_of(decision, config),
{
    if decision.0 {
        Some(
            RateLimitExceeded {
                retry_after_secs: decision.1 / NANOS_PER_SECOND,
                limit: config.requests_per_minute,
                remaining: 0,
            },
        )
    } else {
        None
    }
}

/// The throttle check that every request passes first. A request without a
/// client address is not rate limited and leaves the limiter as it is; any
/// other spends from the bucket of its address and is denied where that is
/// empty.
pub fn rate_limit_middleware(limiter: &mut RateLimiter, client_ip: Option<ClientAddr>) -> (denial: Option<
    RateLimitExceeded,
>)
    requires
        old(limiter).wf(),
    ensures
        final(limiter).wf(),
        client_ip is None ==> denial is None && *final(limiter) == *old(limiter),
        client_ip matches Some(ip) ==> exists|elapsed_nanos: nat, now: Instant, limited: bool| #[trigger]
            old(limiter).limits(ip, elapsed_nanos, now, *final(limiter), limited) && denial == denial_of(
                (limited, retry_after_nanos(old(limiter).spec_config()) as u64),
                old(limiter).spec_config(),
            ),
{
    match client_ip {
        Some(ip) => {
            let config = limiter.config();
            let decision = limiter.is_rate_limited(ip);
            denial_for(decision, config)
        },
        None => None,
    }
}

pub fn strict_rate_limiter() -> (limiter: RateLimiter)
    ensures
        limiter.wf(),
        limiter.spec_config().requests_per_minute == 30,
        limiter.spec_config().burst_size == 5,
        limiter.buckets() == (Map::<ClientAddr, ClientState>::empty()),
{
    RateLimiter::new(RateLimitConfig::strict())
}

pub fn default_rate_limiter() -> (limiter: RateLimiter)
    ensures
        limiter.wf(),
        limiter.spec_config().requests_per_minute == 60,
        limiter.spec_config().burst_size == 10,
        limiter.buckets() == (Map::<ClientAddr, ClientState>::empty()),
{
    RateLimiter::new(RateLimitConfig::default())
}

pub fn lenient_rate_limiter() -> (limiter: RateLimiter)
    ensures
        limiter.wf(),
        limiter.spec_config().requests_per_minute == 120,
        limiter.spec_config().burst_size == 20,
        limiter.buckets() == (Map::<ClientAddr, ClientState>::empty()),
{
    RateLimiter::new(RateLimitConfig::lenient())
}

pub fn custom_rate_limiter(requests_per_minute: u32, burst_size: u32) -> (limiter: RateLimiter)
    requires
        requests_per_minute > 0,
    ensures
        limiter.wf(),
        limiter.spec_config().requests_per_minute == requests_per_minute,
        limiter.spec_config().burst_size == burst_size,
        limiter.buckets() == (Map::<ClientAddr, ClientState>::empty()),
{
    RateLimiter::new(RateLimitConfig::new(requests_per_minute, burst_size))
}

} // verus!
