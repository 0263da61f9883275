//! The TTL memoization cache and its single-flight protocol.
//!
//! A `TtlCache` owns a store of entries, each a value with an expiry
//! timestamp, and a set of per-key in-flight markers. A caller drives one
//! request through two steps:
//!
//! 1. `request(key, now)` decides atomically: `Hit(value)` if a live entry
//!    exists, `Wait` if another caller's computation for the key is already
//!    in flight, or `Compute`, which also plants the in-flight marker and
//!    obliges this caller to run the producer.
//! 2. After the producer finishes, the caller that received `Compute` hands
//!    the outcome to `on_producer_result`, which stores a successful value
//!    with expiry `now + ttl` (and never stores a failure), clears the
//!    marker, and returns what every waiter for this computation receives.
//!
//! All clock reads are explicit `now` arguments in abstract time units, so
//! the expiry policy is deterministic in what the caller passes.

use vstd::prelude::*;

use std::collections::HashMap;
use std::collections::HashSet;

verus! {

broadcast use vstd::std_specs::hash::group_hash_axioms;

/// A stored value together with the instant at which it stops being a hit.
pub struct CacheEntry {
    pub value: String,
    pub expires_at: u64,
}

/// The ways a cache operation can fail.
#[derive(Debug, PartialEq)]
pub enum CacheError {
    /// The configured TTL was unusable (zero): raised at construction.
    InvalidConfiguration,
    /// The producer failed; the message carries the producer's own error.
    /// The failure is surfaced, never cached.
    ProducerFailure(String),
}

/// What a request must do next.
#[derive(Debug, PartialEq)]
pub enum Decision {
    /// A live entry exists: its value, returned without running the producer.
    Hit(String),
    /// Another caller is computing this key: await that result.
    Wait,
    /// Nothing live and nothing in flight: this caller now owns the
    /// computation and must report back through `on_producer_result`.
    Compute,
}

/// A time-to-live memoization cache over integer keys and string values.
pub struct TtlCache {
    ttl: u64,
    entries: HashMap<u32, CacheEntry>,
    in_flight: HashSet<u32>,
}

impl TtlCache {
    /// The freshness window, in time units, fixed at construction.
    pub closed spec fn spec_ttl(&self) -> u64 {
        self.ttl
    }

    /// The store: which keys hold which entry.
    pub closed spec fn spec_entries(&self) -> Map<u32, CacheEntry> {
        self.entries@
    }

    /// The keys whose computation is currently in flight.
    pub closed spec fn spec_in_flight(&self) -> Set<u32> {
        self.in_flight@
    }

    /// A well-formed cache has a positive freshness window.
    pub open spec fn wf(&self) -> bool {
        self.spec_ttl() > 0
    }

    /// Whether `k` holds an entry that is still fresh at `now`.
    pub open spec fn is_live(&self, k: u32, now: u64) -> bool {
        self.spec_entries().contains_key(k) && now < self.spec_entries()[k].expires_at
    }

    /// The decision a request for `k` at `now` takes: a live entry wins,
    /// then an in-flight marker, and only a key that is absent (or stale)
    /// with nothing in flight starts a computation.
    pub open spec fn decision_at(&self, k: u32, now: u64) -> Decision {
        if self.is_live(k, now) {
            Decision::Hit(self.spec_entries()[k].value)
        } else if self.spec_in_flight().contains(k) {
            Decision::Wait
        } else {
            Decision::Compute
        }
    }

    /// Creates an empty cache whose entries stay fresh for `ttl` time units.
    /// A zero TTL is rejected as `InvalidConfiguration`, never clamped.
    pub fn new(ttl: u64) -> (r: Result<TtlCache, CacheError>)
        ensures
            ttl == 0 ==> r == Result::<TtlCache, CacheError>::Err(CacheError::InvalidConfiguration),
            ttl > 0 ==> (match r {
                Ok(c) => {
                    &&& c.wf()
                    &&& c.spec_ttl() == ttl
                    &&& c.spec_entries() == Map::<u32, CacheEntry>::empty()
                    &&& c.spec_in_flight() == Set::<u32>::empty()
                },
                Err(_) => false,
            }),
    {
        if ttl == 0 {
            Err(CacheError::InvalidConfiguration)
        } else {
            Ok(TtlCache { ttl, entries: HashMap::new(), in_flight: HashSet::new() })
        }
    }

    /// The configured freshness window.
    pub fn ttl(&self) -> (t: u64)
        ensures
            t == self.spec_ttl(),
    {
        self.ttl
    }

    /// Whether a computation for `key` is currently in flight.
    pub fn in_flight(&self, key: u32) -> (b: bool)
        ensures
            b == self.spec_in_flight().contains(key),
    {
        self.in_flight.contains(&key)
    }

    /// One atomic lookup-and-mark step for `key` at time `now`. A live entry
    /// is returned as a hit without side effects; otherwise, if a
    /// computation for `key` is already in flight the caller must wait for
    /// it; otherwise this caller becomes the single producer runner for
    /// `key`, and the in-flight marker is planted in the same step, so no
    /// concurrent request can reach the same decision.
    pub fn request(&mut self, key: u32, now: u64) -> (d: Decision)
        ensures
            d == old(self).decision_at(key, now),
            final(self).spec_ttl() == old(self).spec_ttl(),
            final(self).spec_entries() == old(self).spec_entries(),
            final(self).spec_in_flight() == (if d == Decision::Compute {
                old(self).spec_in_flight().insert(key)
            } else {
                old(self).spec_in_flight()
            }),
    {
        match self.entries.get(&key) {
            Some(e) => {
                if now < e.expires_at {
                    return Decision::Hit(e.value.clone());
                }
            },
            None => {},
        }
        if self.in_flight.contains(&key) {
            Decision::Wait
        } else {
            self.in_flight.insert(key);
            Decision::Compute
        }
    }

    /// Stores the value the producer computed for `key` at time `now`: the
    /// entry is replaced wholesale with expiry `now + ttl`, and the
    /// in-flight marker for `key` is cleared. Entries and markers of every
    /// other key are untouched.
    pub fn complete(&mut self, key: u32, value: String, now: u64)
        requires
            old(self).spec_in_flight().contains(key),
            now + old(self).spec_ttl() <= u64::MAX,
        ensures
            final(self).spec_ttl() == old(self).spec_ttl(),
            final(self).spec_entries() == old(self).spec_entries().insert(
                key,
                (CacheEntry { value, expires_at: (now + old(self).spec_ttl()) as u64 }),
            ),
            final(self).spec_in_flight() == old(self).spec_in_flight().remove(key),
    {
        let expires_at = now + self.ttl;
        self.entries.insert(key, CacheEntry { value, expires_at });
        self.in_flight.remove(&key);
    }

    /// Clears the in-flight marker for `key` after a producer failure. The
    /// store is left exactly as it was — a failure is never cached, so the
    /// next request for `key` runs the producer again.
    pub fn fail(&mut self, key: u32)
        ensures
            final(self).spec_ttl() == old(self).spec_ttl(),
            final(self).spec_entries() == old(self).spec_entries(),
            final(self).spec_in_flight() == old(self).spec_in_flight().remove(key),
    {
        self.in_flight.remove(&key);
    }

    /// Settles the computation a `Compute` decision obliged the caller to
    /// run: a successful value is stored with expiry `now + ttl` and handed
    /// back, a failure clears the marker without touching the store and is
    /// surfaced as `ProducerFailure` with the producer's own error
    /// preserved. Either way the in-flight marker for `key` is gone and
    /// every other key is untouched.
    pub fn on_producer_result(&mut self, key: u32, outcome: Result<String, String>, now: u64) -> (r:
        Result<String, CacheError>)
        requires
            old(self).spec_in_flight().contains(key),
            now + old(self).spec_ttl() <= u64::MAX,
        ensures
            final(self).spec_ttl() == old(self).spec_ttl(),
            final(self).spec_in_flight() == old(self).spec_in_flight().remove(key),
            match outcome {
                Ok(v) => {
                    &&& r == Result::<String, CacheError>::Ok(v)
                    &&& final(self).spec_entries() == old(self).spec_entries().insert(
                        key,
                        (CacheEntry { value: v, expires_at: (now + old(self).spec_ttl()) as u64 }),
                    )
                },
                Err(e) => {
                    &&& r == Result::<String, CacheError>::Err(CacheError::ProducerFailure(e))
                    &&& final(self).spec_entries() == old(self).spec_entries()
                },
            },
    {
        match outcome {
            Ok(value) => {
                let out = value.clone();
                self.complete(key, value, now);
                Ok(out)
            },
            Err(e) => {
                self.fail(key);
                Err(CacheError::ProducerFailure(e))
            },
        }
    }
}

/// Hit within TTL: once a value for `k` is stored at time `t0` (so its entry
/// expires at `t0 + ttl`, as `complete` ensures), every request at a time
/// `t1` with `t0 <= t1 < t0 + ttl` decides `Hit` with exactly that value —
/// the producer is not run again.
pub proof fn lemma_hit_within_ttl(c: TtlCache, k: u32, t0: u64, t1: u64)
    requires
        c.spec_entries().contains_key(k),
        c.spec_entries()[k].expires_at == t0 + c.spec_ttl(),
        t0 <= t1 < t0 + c.spec_ttl(),
    ensures
        c.decision_at(k, t1) == Decision::Hit(c.spec_entries()[k].value),
{
}

/// Miss after TTL: at any time `t1` at or past the entry's expiry, with no
/// computation in flight, a request for `k` decides `Compute`: the producer
/// runs again, and the `complete` that follows stores the result — identical
/// in value or not — with the fresh expiry `t1 + ttl` (its `ensures`).
pub proof fn lemma_miss_after_ttl(c: TtlCache, k: u32, t1: u64)
    requires
        c.spec_entries().contains_key(k),
        c.spec_entries()[k].expires_at <= t1,
        !c.spec_in_flight().contains(k),
    ensures
        c.decision_at(k, t1) == Decision::Compute,
{
}

/// Single-flight: while a computation for `k` is in flight, no request for
/// `k` can decide `Compute`, so the producer is never started a second time;
/// a concurrent request either hits a live entry or waits for the one
/// in-flight computation, whose single result `on_producer_result` hands to
/// every waiter.
pub proof fn lemma_single_flight(c: TtlCache, k: u32, now: u64)
    requires
        c.spec_in_flight().contains(k),
    ensures
        c.decision_at(k, now) != Decision::Compute,
        !c.is_live(k, now) ==> c.decision_at(k, now) == Decision::Wait,
{
}

/// Independence: the decision for a key reads nothing but that key's own
/// entry and marker. Two caches that agree on `k`'s entry and marker — as
/// the post- and pre-states of `request`, `complete`, `fail` or
/// `on_producer_result` on any other key do — decide requests for `k`
/// identically, so distinct keys never block or invalidate each other.
pub proof fn lemma_independence(pre: TtlCache, post: TtlCache, k: u32, now: u64)
    requires
        post.spec_entries().contains_key(k) == pre.spec_entries().contains_key(k),
        pre.spec_entries().contains_key(k) ==> post.spec_entries()[k] == pre.spec_entries()[k],
        post.spec_in_flight().contains(k) == pre.spec_in_flight().contains(k),
    ensures
        post.decision_at(k, now) == pre.decision_at(k, now),
{
}

/// Independence of the protocol's own steps: each of `request`, `complete`,
/// `fail` and `on_producer_result` either leaves the store as it is or
/// replaces the one entry of its own key, and either leaves the markers as
/// they are or plants or clears the one marker of its own key — the shapes
/// their `ensures` state. Any such step preserves the decision of every
/// other key at every time.
pub proof fn lemma_step_preserves_other_keys(
    pre: TtlCache,
    post: TtlCache,
    k: u32,
    other: u32,
    now: u64,
)
    requires
        other != k,
        post.spec_entries() == pre.spec_entries() || (exists|e: CacheEntry|
            post.spec_entries() == pre.spec_entries().insert(k, e)),
        post.spec_in_flight() == pre.spec_in_flight() || post.spec_in_flight()
            == pre.spec_in_flight().insert(k) || post.spec_in_flight()
            == pre.spec_in_flight().remove(k),
    ensures
        post.decision_at(other, now) == pre.decision_at(other, now),
{
    if post.spec_entries() != pre.spec_entries() {
        let e = choose|e: CacheEntry| post.spec_entries() == pre.spec_entries().insert(k, e);
        assert(post.spec_entries().contains_key(other) == pre.spec_entries().contains_key(other));
    }
    lemma_independence(pre, post, other, now);
}

/// Failure non-caching: `fail` (and the failure arm of `on_producer_result`)
/// leaves the store untouched, so a key that held nothing live at `t0` —
/// the state in which its producer was started and then failed — still
/// holds nothing live at any `t1 >= t0`; with the marker cleared, the very
/// next request decides `Compute` and retries the producer from scratch.
pub proof fn lemma_failure_leaves_key_absent(c: TtlCache, k: u32, t0: u64, t1: u64)
    requires
        !c.is_live(k, t0),
        !c.spec_in_flight().contains(k),
        t0 <= t1,
    ensures
        c.decision_at(k, t1) == Decision::Compute,
{
}

/// Staleness is never a hit: a request decides `Hit` only on an entry whose
/// expiry lies strictly beyond `now`, and the value handed back is exactly
/// the stored one — an expired entry behaves as if the key were absent.
pub proof fn lemma_no_stale_hit(c: TtlCache, k: u32, now: u64)
    ensures
        c.decision_at(k, now) is Hit ==> {
            &&& c.spec_entries().contains_key(k)
            &&& now < c.spec_entries()[k].expires_at
            &&& c.decision_at(k, now) == Decision::Hit(c.spec_entries()[k].value)
        },
{
}

} // verus!
