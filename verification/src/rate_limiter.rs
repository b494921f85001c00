//! Per-client admission control: a fixed-window counter per identity, kept
//! in one bounded cache that every concurrent request shares. The admission
//! step itself is pure (`rate_limit_decide`); `RateLimiter::check` runs it
//! as one read-modify-write against the cache; the laws at the end pin the
//! window and quota behavior down.

use vstd::prelude::*;
use crate::identity::{identity_spec, resolve_identity};

verus! {

// ---------------------------------------------------------------------------
// The shared client cache, held in a bounded cache of an outside crate.
// ---------------------------------------------------------------------------

#[verifier::external_type_specification]
#[verifier::external_body]
#[verifier::reject_recursive_types(K)]
#[verifier::reject_recursive_types(V)]
#[verifier::reject_recursive_types(S)]
pub struct ExCache<K, V, S>(moka::sync::Cache<K, V, S>);

/// The concrete cache shape the limiter uses: identity string to the pair of
/// admitted-request count and window start.
pub type ClientCache = moka::sync::Cache<String, (u64, u64)>;

/// What the client cache holds: for each client identity, the stored pair of
/// admitted-request count and window start.
pub uninterp spec fn cache_entries(c: ClientCache) -> Map<Seq<char>, (u64, u64)>;

/// The contents of a cache that holds no client yet.
pub open spec fn no_entries() -> Map<Seq<char>, (u64, u64)> {
    Map::empty()
}

/// The capacity bound the cache was created with: the size housekeeping
/// evicts down to. The cache may stand over it briefly while evictions are
/// pending.
pub uninterp spec fn cache_capacity(c: ClientCache) -> u64;

/// Relies on moka::sync::Cache::new: a fresh cache holds nothing and is
/// bounded by `cap` entries.
#[verifier::external_body]
fn cache_new(cap: u64) -> (c: ClientCache)
    ensures
        cache_entries(c) == no_entries(),
        cache_capacity(c) == cap,
{
    moka::sync::Cache::new(cap)
}

/// Relies on moka::sync::Cache::get: returns exactly what the cache holds
/// under the key. Housekeeping may apply pending evictions while the cache
/// stands over its capacity, so afterwards the contents are at most what they
/// were; at or under capacity nothing is evicted.
#[verifier::external_body]
fn cache_get(c: &mut ClientCache, key: &String) -> (r: Option<(u64, u64)>)
    ensures
        match r {
            Some(v) => cache_entries(*old(c)).contains_key(key@) && cache_entries(*old(c))[key@]
                == v,
            None => !cache_entries(*old(c)).contains_key(key@),
        },
        cache_entries(*final(c)).submap_of(cache_entries(*old(c))),
        cache_capacity(*final(c)) == cache_capacity(*old(c)),
        cache_entries(*old(c)).dom().finite() ==> cache_entries(*final(c)).dom().finite(),
        cache_entries(*old(c)).dom().finite() && cache_entries(*old(c)).dom().len()
            <= cache_capacity(*old(c)) ==> cache_entries(*final(c)) == cache_entries(*old(c)),
{
    c.get(key)
}

/// Relies on moka::sync::Cache::insert: stores the value under the key,
/// replacing any present one. Over capacity, housekeeping may evict entries —
/// the new one included — so the contents afterwards are at most the old ones
/// plus the new pair; at or under capacity everything is kept.
#[verifier::external_body]
fn cache_insert(c: &mut ClientCache, key: String, value: (u64, u64))
    ensures
        cache_entries(*final(c)).submap_of(cache_entries(*old(c)).insert(key@, value)),
        cache_capacity(*final(c)) == cache_capacity(*old(c)),
        cache_entries(*old(c)).dom().finite() ==> cache_entries(*final(c)).dom().finite(),
        cache_entries(*old(c)).dom().finite() && cache_entries(*old(c)).insert(
            key@,
            value,
        ).dom().len() <= cache_capacity(*old(c)) ==> cache_entries(*final(c)) == cache_entries(
            *old(c),
        ).insert(key@, value),
{
    c.insert(key, value);
}

// ---------------------------------------------------------------------------
// The admission step, as pure data.
// ---------------------------------------------------------------------------

/// One client's admission state: how many requests were admitted in the
/// current window, and when that window began. Times are caller-supplied
/// ticks; the window width below uses the same unit.
#[derive(Debug, Clone, Copy, PartialEq, Eq, Structural)]
pub struct RateLimitEntry {
    pub count: u64,
    pub window_start: u64,
}

/// Whether a stored window has fully elapsed at `now`: strictly more than
/// `window` ticks have passed since it began. This is a hard fixed-window
/// scheme: at a boundary a client may spend one quota in the old window and
/// one in the new.
pub open spec fn window_expired_spec(e: RateLimitEntry, now: u64, window: u64) -> bool {
    now > e.window_start && now - e.window_start > window
}

/// The state the admission step judges: a missing entry counts as zero
/// requests in a window starting now, and an elapsed window resets the same
/// way.
pub open spec fn effective_entry_spec(
    e: Option<RateLimitEntry>,
    now: u64,
    window: u64,
) -> RateLimitEntry {
    match e {
        None => RateLimitEntry { count: 0, window_start: now },
        Some(en) => if window_expired_spec(en, now, window) {
            RateLimitEntry { count: 0, window_start: now }
        } else {
            en
        },
    }
}

/// Whether the request is admitted: the effective count still sits below the
/// quota.
pub open spec fn admits_spec(e: Option<RateLimitEntry>, now: u64, quota: u64, window: u64) -> bool {
    effective_entry_spec(e, now, window).count < quota
}

/// What the step persists: the incremented effective entry on admission, and
/// nothing on rejection (a rejected request leaves the cache untouched).
pub open spec fn stored_after_spec(
    e: Option<RateLimitEntry>,
    now: u64,
    quota: u64,
    window: u64,
) -> Option<RateLimitEntry> {
    let eff = effective_entry_spec(e, now, window);
    if eff.count < quota {
        Some(RateLimitEntry { count: (eff.count + 1) as u64, window_start: eff.window_start })
    } else {
        None
    }
}

/// One fixed-window admission step on a looked-up entry: decides whether the
/// request passes and what to store back.
pub fn rate_limit_decide(entry: Option<RateLimitEntry>, now: u64, quota: u64, window: u64) -> (r: (
    bool,
    Option<RateLimitEntry>,
))
    ensures
        r.0 == admits_spec(entry, now, quota, window),
        r.1 == stored_after_spec(entry, now, quota, window),
{
    let eff = match entry {
        Some(e) => {
            if now > e.window_start && now - e.window_start > window {
                RateLimitEntry { count: 0, window_start: now }
            } else {
                e
            }
        },
        None => RateLimitEntry { count: 0, window_start: now },
    };
    if eff.count >= quota {
        (false, None)
    } else {
        (true, Some(RateLimitEntry { count: eff.count + 1, window_start: eff.window_start }))
    }
}

// ---------------------------------------------------------------------------
// The limiter over the shared cache.
// ---------------------------------------------------------------------------

/// The entry stored under a key, if the map holds one.
pub open spec fn lookup_spec(m: Map<Seq<char>, (u64, u64)>, key: Seq<char>) -> Option<
    RateLimitEntry,
> {
    if m.contains_key(key) {
        Some(RateLimitEntry { count: m[key].0, window_start: m[key].1 })
    } else {
        None
    }
}

/// Admission-control gate keyed by client identity: a bounded shared cache of
/// per-client windows, plus the quota and window width it enforces.
pub struct RateLimiter {
    pub cache: ClientCache,
    pub quota: u64,
    pub window: u64,
}

/// How one `check` call relates the limiter's state before and after: the
/// decision follows `admits_spec` on the entry stored under the key, an
/// admission persists the incremented entry, a rejection stores nothing, and
/// eviction can only shrink the cache — never invent entries. While the cache
/// stays within its capacity the contents are pinned down exactly.
pub open spec fn check_relation(
    pre: RateLimiter,
    post: RateLimiter,
    key: Seq<char>,
    now: u64,
    admitted: bool,
) -> bool {
    let m0 = cache_entries(pre.cache);
    let m1 = cache_entries(post.cache);
    let seen = lookup_spec(m0, key);
    &&& post.quota == pre.quota
    &&& post.window == pre.window
    &&& cache_capacity(post.cache) == cache_capacity(pre.cache)
    &&& admitted == admits_spec(seen, now, pre.quota, pre.window)
    &&& (m0.dom().finite() ==> m1.dom().finite())
    &&& match stored_after_spec(seen, now, pre.quota, pre.window) {
        Some(st) => {
            let stored = m0.insert(key, (st.count, st.window_start));
            &&& m1.submap_of(stored)
            &&& (m0.dom().finite() && stored.dom().len() <= cache_capacity(pre.cache) ==> m1
                == stored)
        },
        None => {
            &&& m1.submap_of(m0)
            &&& (m0.dom().finite() && m0.dom().len() <= cache_capacity(pre.cache) ==> m1 == m0)
        },
    }
}

impl RateLimiter {
    /// Creates a limiter admitting at most `quota` requests per client within
    /// a window of `window` ticks, remembering at most `max_clients` distinct
    /// clients.
    pub fn new(max_clients: u64, quota: u64, window: u64) -> (r: RateLimiter)
        ensures
            cache_entries(r.cache) == no_entries(),
            cache_capacity(r.cache) == max_clients,
            r.quota == quota,
            r.window == window,
    {
        RateLimiter { cache: cache_new(max_clients), quota, window }
    }

    /// One admission step for `identity` at time `now`: look the entry up,
    /// reset it when its window has elapsed, reject when the quota is spent,
    /// and otherwise admit and persist the incremented count.
    ///
    /// Tasks sharing one limiter must serialize their calls (one lock held
    /// around each call), which makes the whole read-modify-write a single
    /// critical section: two racing requests then see each other's counts.
    pub fn check(&mut self, identity: &String, now: u64) -> (admitted: bool)
        ensures
            check_relation(*old(self), *final(self), identity@, now, admitted),
    {
        let ghost m0 = cache_entries(old(self).cache);
        let seen_pair = cache_get(&mut self.cache, identity);
        let ghost mmid = cache_entries(self.cache);
        let seen = match seen_pair {
            Some(p) => Some(RateLimitEntry { count: p.0, window_start: p.1 }),
            None => None,
        };
        proof {
            assert(seen == lookup_spec(m0, identity@));
        }
        let (admitted, store) = rate_limit_decide(seen, now, self.quota, self.window);
        match store {
            Some(st) => {
                let value = (st.count, st.window_start);
                cache_insert(&mut self.cache, identity.clone(), value);
                proof {
                    let m1 = cache_entries(self.cache);
                    let stored = m0.insert(identity@, value);
                    let stored_mid = mmid.insert(identity@, value);
                    assert(stored_mid.submap_of(stored)) by {
                        assert forall|x: Seq<char>| #[trigger] stored_mid.dom().contains(x) implies
                            stored.dom().contains(x) && stored_mid[x] == stored[x] by {
                            if x != identity@ {
                                assert(mmid.dom().contains(x));
                            }
                        }
                    }
                    assert(m1.submap_of(stored)) by {
                        assert forall|x: Seq<char>| #[trigger] m1.dom().contains(x) implies
                            stored.dom().contains(x) && m1[x] == stored[x] by {
                            assert(stored_mid.dom().contains(x));
                        }
                    }
                    if m0.dom().finite() && stored.dom().len() <= cache_capacity(
                        old(self).cache,
                    ) {
                        assert(m0.dom() <= stored.dom());
                        vstd::set_lib::lemma_len_subset(m0.dom(), stored.dom());
                        assert(mmid == m0);
                        assert(m1 == stored);
                    }
                }
            },
            None => {},
        }
        admitted
    }

    /// Wraps the limiter as the chain stage that admits or rejects each
    /// request.
    pub fn new_transform(self) -> (r: RateLimiterMiddleware)
        ensures
            r.limiter == self,
    {
        RateLimiterMiddleware { limiter: self }
    }
}

/// The rate-limiting stage of the interceptor chain: resolves the caller's
/// identity and takes one admission step against the shared limiter.
pub struct RateLimiterMiddleware {
    pub limiter: RateLimiter,
}

impl RateLimiterMiddleware {
    /// Handles one request's admission: derive the client identity from the
    /// connection metadata, then admit or reject it. Returns the decision and
    /// the identity it charged.
    pub fn call(&mut self, forwarded: Option<&str>, peer: Option<&str>, now: u64) -> (r: (
        bool,
        String,
    ))
        ensures
            r.1@ == identity_spec(forwarded.deep_view(), peer.deep_view()),
            check_relation(old(self).limiter, final(self).limiter, r.1@, now, r.0),
    {
        let identity = resolve_identity(forwarded, peer);
        let admitted = self.limiter.check(&identity, now);
        (admitted, identity)
    }
}

// ---------------------------------------------------------------------------
// Laws of the admission step.
// ---------------------------------------------------------------------------

/// Replays a client's requests at the given times against one entry,
/// threading the stored state exactly as `check` persists it: each step
/// stores the incremented entry on admission and leaves the state alone on
/// rejection. Returns the per-request decisions and the final state.
pub open spec fn run_steps_spec(
    e: Option<RateLimitEntry>,
    times: Seq<u64>,
    quota: u64,
    window: u64,
) -> (Seq<bool>, Option<RateLimitEntry>)
    decreases times.len(),
{
    if times.len() == 0 {
        (Seq::empty(), e)
    } else {
        let admitted = admits_spec(e, times[0], quota, window);
        let e2 = match stored_after_spec(e, times[0], quota, window) {
            Some(st) => Some(st),
            None => e,
        };
        let (rest, ef) = run_steps_spec(e2, times.drop_first(), quota, window);
        (seq![admitted] + rest, ef)
    }
}

/// Law: within one window, a client whose entry stands at `count0` is
/// admitted exactly while the running count stays below the quota, and the
/// count never passes the quota.
pub proof fn lemma_run_within_window(
    count0: u64,
    t0: u64,
    times: Seq<u64>,
    quota: u64,
    window: u64,
)
    requires
        count0 <= quota,
        forall|i: int|
            0 <= i < times.len() ==> t0 <= #[trigger] times[i] && times[i] - t0 <= window,
    ensures
        ({
            let (results, ef) = run_steps_spec(
                Some(RateLimitEntry { count: count0, window_start: t0 }),
                times,
                quota,
                window,
            );
            &&& results.len() == times.len()
            &&& forall|i: int| 0 <= i < times.len() ==> (#[trigger] results[i] <==> count0 + i < quota)
            &&& ef == Some(
                RateLimitEntry {
                    count: (if count0 + times.len() <= quota {
                        (count0 + times.len()) as u64
                    } else {
                        quota
                    }),
                    window_start: t0,
                },
            )
        }),
    decreases times.len(),
{
    let e = RateLimitEntry { count: count0, window_start: t0 };
    if times.len() > 0 {
        assert(!window_expired_spec(e, times[0], window));
        if count0 < quota {
            lemma_run_within_window((count0 + 1) as u64, t0, times.drop_first(), quota, window);
        } else {
            lemma_run_within_window(count0, t0, times.drop_first(), quota, window);
        }
    }
}

/// Law: a fresh client issuing `quota` requests within one window is admitted
/// every time, its next request in the same window is rejected, and a request
/// issued once the window has elapsed is admitted again.
pub proof fn lemma_quota_exhaustion(times: Seq<u64>, quota: u64, window: u64)
    requires
        quota >= 1,
        times.len() == quota + 1,
        forall|i: int|
            0 <= i < times.len() ==> times[0] <= #[trigger] times[i] && times[i] - times[0]
                <= window,
    ensures
        ({
            let (results, ef) = run_steps_spec(None, times, quota, window);
            &&& results.len() == times.len()
            &&& forall|i: int| 0 <= i < quota ==> #[trigger] results[i]
            &&& !results[quota as int]
            &&& ef == Some(RateLimitEntry { count: quota, window_start: times[0] })
            &&& forall|t: u64|
                t > times[0] && t - times[0] > window ==> #[trigger] admits_spec(
                    ef,
                    t,
                    quota,
                    window,
                )
        }),
{
    let t0 = times[0];
    assert(admits_spec(None, t0, quota, window));
    assert(stored_after_spec(None, t0, quota, window) == Some(
        RateLimitEntry { count: 1, window_start: t0 },
    ));
    assert(forall|i: int|
        0 <= i < times.drop_first().len() ==> t0 <= #[trigger] times.drop_first()[i]
            && times.drop_first()[i] - t0 <= window);
    lemma_run_within_window(1, t0, times.drop_first(), quota, window);
    let (rest, ef) = run_steps_spec(
        Some(RateLimitEntry { count: 1, window_start: t0 }),
        times.drop_first(),
        quota,
        window,
    );
    assert(!rest[quota - 1]);
    assert(forall|i: int| 0 <= i < quota - 1 ==> (#[trigger] rest[i] <==> 1 + i < quota));
}

/// Law: once a stored window has fully elapsed, the client's next request is
/// admitted again (the counter resets with a fresh window).
pub proof fn lemma_window_elapse_admits(e: RateLimitEntry, now: u64, quota: u64, window: u64)
    requires
        quota >= 1,
        now > e.window_start,
        now - e.window_start > window,
    ensures
        admits_spec(Some(e), now, quota, window),
        stored_after_spec(Some(e), now, quota, window) == Some(
            RateLimitEntry { count: 1, window_start: now },
        ),
{
}

/// Law: within its window an entry's count never decreases — an admission
/// raises it by exactly one and keeps the window start, and a rejection
/// stores nothing. The count resets only with a fresh window.
pub proof fn lemma_count_monotone_within_window(
    e: RateLimitEntry,
    now: u64,
    quota: u64,
    window: u64,
)
    requires
        now >= e.window_start,
        now - e.window_start <= window,
    ensures
        match stored_after_spec(Some(e), now, quota, window) {
            Some(st) => st.count == e.count + 1 && st.window_start == e.window_start,
            None => true,
        },
{
}

/// Law: two requests from one identity arriving when its count stands one
/// below the quota — racing requests serialized by the cache's critical
/// section — end in exactly one admission and one rejection, never two
/// admissions.
pub proof fn lemma_no_double_admission(e: RateLimitEntry, now: u64, quota: u64, window: u64)
    requires
        quota >= 1,
        e.count == quota - 1,
        now >= e.window_start,
        now - e.window_start <= window,
    ensures
        admits_spec(Some(e), now, quota, window),
        ({
            let st = stored_after_spec(Some(e), now, quota, window);
            st is Some && !admits_spec(st, now, quota, window)
        }),
{
}

/// Law: a `check` of an identity whose stored window has fully elapsed is
/// admitted whatever its count stood at, and — while the cache stays within
/// its capacity — the entry is reset to one request in a fresh window
/// starting now: a hard fixed-window reset, with the full quota available
/// again, not a sliding window.
pub proof fn lemma_check_after_window_elapse(
    s0: RateLimiter,
    s1: RateLimiter,
    key: Seq<char>,
    now: u64,
    a: bool,
)
    requires
        check_relation(s0, s1, key, now, a),
        s0.quota >= 1,
        cache_entries(s0.cache).dom().finite(),
        cache_entries(s0.cache).dom().len() <= cache_capacity(s0.cache),
        cache_entries(s0.cache).contains_key(key),
        now > cache_entries(s0.cache)[key].1,
        now - cache_entries(s0.cache)[key].1 > s0.window,
    ensures
        a,
        cache_entries(s1.cache).contains_key(key),
        cache_entries(s1.cache)[key] == (1u64, now),
{
    let m0 = cache_entries(s0.cache);
    let m1 = cache_entries(s1.cache);
    let e = RateLimitEntry { count: m0[key].0, window_start: m0[key].1 };
    assert(window_expired_spec(e, now, s0.window));
    assert(a);
    let st = stored_after_spec(Some(e), now, s0.quota, s0.window);
    assert(st == Some(RateLimitEntry { count: 1, window_start: now }));
    let stored = m0.insert(key, (1u64, now));
    assert(stored.dom() =~= m0.dom());
    assert(m1 == stored);
}

/// Law: two `check` calls of one identity that run back to back — two
/// concurrent requests serialized by the limiter's critical section — when
/// the stored count stands one below the quota end in exactly one admission:
/// the first is admitted and the second rejected, never both.
pub proof fn lemma_checks_admit_exactly_one(
    s0: RateLimiter,
    s1: RateLimiter,
    s2: RateLimiter,
    key: Seq<char>,
    now: u64,
    a1: bool,
    a2: bool,
)
    requires
        check_relation(s0, s1, key, now, a1),
        check_relation(s1, s2, key, now, a2),
        s0.quota >= 1,
        cache_entries(s0.cache).dom().finite(),
        cache_entries(s0.cache).dom().len() <= cache_capacity(s0.cache),
        cache_entries(s0.cache).contains_key(key),
        cache_entries(s0.cache)[key].0 == s0.quota - 1,
        now >= cache_entries(s0.cache)[key].1,
        now - cache_entries(s0.cache)[key].1 <= s0.window,
    ensures
        a1,
        !a2,
{
    let m0 = cache_entries(s0.cache);
    let m1 = cache_entries(s1.cache);
    let e = RateLimitEntry { count: m0[key].0, window_start: m0[key].1 };
    assert(!window_expired_spec(e, now, s0.window));
    assert(a1);
    let st = stored_after_spec(Some(e), now, s0.quota, s0.window);
    assert(st == Some(RateLimitEntry { count: s0.quota, window_start: e.window_start }));
    let stored = m0.insert(key, (s0.quota, e.window_start));
    assert(stored.dom() =~= m0.dom());
    assert(m1 == stored);
    assert(lookup_spec(m1, key) == Some(
        RateLimitEntry { count: s0.quota, window_start: e.window_start },
    ));
    assert(!a2);
}

} // verus!
