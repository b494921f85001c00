//! The interceptor chain: an explicit ordered list of stages wrapped around
//! a terminal handler, with pre-processing in order, post-processing in
//! reverse, and short-circuiting that skips everything downstream while the
//! stages already entered still unwind.

use vstd::prelude::*;
use crate::identity::identity_spec;
use crate::rate_limiter::{admits_spec, cache_entries, check_relation, lookup_spec, RateLimiterMiddleware};

verus! {

/// The closed set of interceptor stages the gateway composes around its
/// terminal handler, outermost first: request logging, the CORS policy, the
/// generic pre/post logging hook, the identity-stamping hook, and the rate
/// limiter. Only the rate limiter ever short-circuits.
#[derive(Debug, Clone, Copy, PartialEq, Eq, Structural)]
pub enum StageKind {
    Logging,
    Cors,
    PrePostHook,
    IdentityStamp,
    RateLimit,
}

/// One step of a request's journey through the chain, recorded in order:
/// stage `i` ran its pre-processing half, stage `i` short-circuited, the
/// terminal handler ran, or stage `i` ran its post-processing half.
#[derive(Debug, Clone, Copy, PartialEq, Eq, Structural)]
pub enum ChainEvent {
    Pre(usize),
    Halted(usize),
    Handler,
    Post(usize),
}

/// The pre-processing halves of the first `k` stages, in order.
pub open spec fn pre_events(k: int) -> Seq<ChainEvent> {
    Seq::new(k as nat, |i: int| ChainEvent::Pre(i as usize))
}

/// The post-processing halves of the first `k` stages, in reverse order:
/// the unwind of a nested interceptor chain.
pub open spec fn post_events_rev(k: int) -> Seq<ChainEvent> {
    Seq::new(k as nat, |i: int| ChainEvent::Post((k - 1 - i) as usize))
}

/// The trace of a request that every stage admitted: all pre-processing in
/// order, the terminal handler, then all post-processing in reverse order.
pub open spec fn full_trace_spec(n: int) -> Seq<ChainEvent> {
    pre_events(n) + seq![ChainEvent::Handler] + post_events_rev(n)
}

/// The trace of a request that stage `k` short-circuited: the earlier
/// stages' pre-processing, the halt, then those same stages' post-processing
/// in reverse order — and no handler.
pub open spec fn halted_trace_spec(k: int) -> Seq<ChainEvent> {
    pre_events(k) + seq![ChainEvent::Halted(k as usize)] + post_events_rev(k)
}

/// Index of the first rate-limiting stage at or after `i`, or the length
/// when there is none.
pub open spec fn first_rate_limit_from(stages: Seq<StageKind>, i: int) -> int
    decreases stages.len() - i,
{
    if i >= stages.len() as int {
        stages.len() as int
    } else if stages[i] is RateLimit {
        i
    } else {
        first_rate_limit_from(stages, i + 1)
    }
}

/// The first rate-limiting stage lies between `i` and the end, and where it
/// lies inside the list it really is a rate-limiting stage.
proof fn lemma_first_rate_limit_props(stages: Seq<StageKind>, i: int)
    requires
        0 <= i <= stages.len(),
    ensures
        i <= first_rate_limit_from(stages, i) <= stages.len(),
        first_rate_limit_from(stages, i) < stages.len() ==> stages[first_rate_limit_from(
            stages,
            i,
        )] is RateLimit,
    decreases stages.len() - i,
{
    if i < stages.len() && !(stages[i] is RateLimit) {
        lemma_first_rate_limit_props(stages, i + 1);
    }
}

/// The outcome of running the chain once: which stage halted the request (if
/// any) and the ordered trace of what ran.
pub struct ChainRun {
    pub halted_at: Option<usize>,
    pub trace: Vec<ChainEvent>,
}

/// Appends the post-processing events of the first `k` stages, in reverse
/// order.
fn push_posts(trace: &mut Vec<ChainEvent>, k: usize)
    ensures
        final(trace)@ == old(trace)@ + post_events_rev(k as int),
{
    let mut j: usize = k;
    while j > 0
        invariant
            j <= k,
            trace@ == old(trace)@ + Seq::new(
                (k - j) as nat,
                |t: int| ChainEvent::Post((k - 1 - t) as usize),
            ),
        decreases j,
    {
        trace.push(ChainEvent::Post(j - 1));
        j = j - 1;
        proof {
            assert(trace@ =~= old(trace)@ + Seq::new(
                (k - j) as nat,
                |t: int| ChainEvent::Post((k - 1 - t) as usize),
            ));
        }
    }
    proof {
        assert(trace@ =~= old(trace)@ + post_events_rev(k as int));
    }
}

/// Runs the interceptor chain for one request: each stage's pre-processing
/// runs in order until one short-circuits; a short-circuit skips every later
/// stage and the terminal handler, and the stages that already ran unwind
/// their post-processing in reverse order. Only a rate-limiting stage ever
/// halts the request, and only by rejecting it against the shared limiter:
/// with a single rate-limiting stage (the configured chain), the run halts
/// exactly when the limiter's admission step rejects, and the limiter moves
/// by exactly that one step.
#[verifier::loop_isolation(false)]
pub fn chain_run(
    stages: &Vec<StageKind>,
    mw: &mut RateLimiterMiddleware,
    forwarded: Option<&str>,
    peer: Option<&str>,
    now: u64,
) -> (r: ChainRun)
    ensures
        match r.halted_at {
            None => r.trace@ == full_trace_spec(stages@.len() as int),
            Some(k) => k < stages@.len() && stages@[k as int] is RateLimit && r.trace@
                == halted_trace_spec(k as int),
        },
        r.halted_at is Some ==> !r.trace@.contains(ChainEvent::Handler),
        final(mw).limiter.quota == old(mw).limiter.quota,
        final(mw).limiter.window == old(mw).limiter.window,
        (forall|i: int| 0 <= i < stages@.len() ==> !(#[trigger] stages@[i] is RateLimit))
            ==> r.halted_at is None && *final(mw) == *old(mw),
        ({
            let k0 = first_rate_limit_from(stages@, 0);
            let id = identity_spec(forwarded.deep_view(), peer.deep_view());
            let pre = old(mw).limiter;
            let d = admits_spec(lookup_spec(cache_entries(pre.cache), id), now, pre.quota, pre.window);
            (k0 < stages@.len() && (forall|j: int|
                0 <= j < stages@.len() && #[trigger] stages@[j] is RateLimit ==> j == k0)) ==> {
                &&& check_relation(pre, final(mw).limiter, id, now, d)
                &&& (d ==> r.halted_at is None)
                &&& (!d ==> r.halted_at == Some(k0 as usize))
            }
        }),
{
    let n = stages.len();
    let ghost k0 = first_rate_limit_from(stages@, 0);
    let ghost id = identity_spec(forwarded.deep_view(), peer.deep_view());
    let ghost pre_l = old(mw).limiter;
    let ghost d = admits_spec(lookup_spec(cache_entries(pre_l.cache), id), now, pre_l.quota, pre_l.window);
    let ghost single = k0 < stages@.len() && (forall|j: int|
        0 <= j < stages@.len() && #[trigger] stages@[j] is RateLimit ==> j == k0);
    let ghost no_rl = forall|i: int| 0 <= i < stages@.len() ==> !(#[trigger] stages@[i] is RateLimit);
    proof {
        lemma_first_rate_limit_props(stages@, 0);
    }
    let mut trace: Vec<ChainEvent> = Vec::new();
    let mut halted: Option<usize> = None;
    let mut i: usize = 0;
    while i < n && halted.is_none()
        invariant
            i <= n,
            n == stages@.len(),
            mw.limiter.quota == old(mw).limiter.quota,
            mw.limiter.window == old(mw).limiter.window,
            match halted {
                None => trace@ == pre_events(i as int),
                Some(k) => k == i && i < n && stages@[i as int] is RateLimit && trace@
                    == pre_events(i as int) + seq![ChainEvent::Halted(i)],
            },
            no_rl ==> *mw == *old(mw) && halted is None,
            single && halted is None && i as int <= k0 ==> *mw == *old(mw),
            single && halted is None && i as int > k0 ==> d && check_relation(
                pre_l,
                mw.limiter,
                id,
                now,
                true,
            ),
            single ==> (halted matches Some(k) ==> (k as int == k0 && !d && check_relation(
                pre_l,
                mw.limiter,
                id,
                now,
                false,
            ))),
        decreases n - i, (if halted.is_none() { 1int } else { 0int }),
    {
        let stage = stages[i];
        let admitted = match stage {
            StageKind::RateLimit => {
                proof {
                    assert(stages@[i as int] is RateLimit);
                    if single {
                        assert(i as int == k0);
                    }
                }
                let (a, _identity) = mw.call(forwarded, peer, now);
                a
            },
            _ => true,
        };
        if admitted {
            trace.push(ChainEvent::Pre(i));
            proof {
                assert(trace@ =~= pre_events(i as int + 1));
            }
            i = i + 1;
        } else {
            trace.push(ChainEvent::Halted(i));
            halted = Some(i);
        }
    }
    match halted {
        None => {
            trace.push(ChainEvent::Handler);
            push_posts(&mut trace, n);
            proof {
                assert(trace@ =~= full_trace_spec(n as int));
            }
            ChainRun { halted_at: None, trace }
        },
        Some(k) => {
            push_posts(&mut trace, k);
            proof {
                assert(trace@ =~= halted_trace_spec(k as int));
                lemma_short_circuit_shields_handler(k as int);
            }
            ChainRun { halted_at: Some(k), trace }
        },
    }
}

/// The status a rate-limited request is answered with: too many requests,
/// empty body.
pub const TOO_MANY_REQUESTS_STATUS: u16 = 429;

/// The gateway's configured chain, outermost first: request logging, the
/// CORS policy, the generic pre/post logging hook, the identity-stamping
/// hook, then the rate limiter, wrapped around the terminal handler.
pub fn standard_chain() -> (r: Vec<StageKind>)
    ensures
        r@ == seq![
            StageKind::Logging,
            StageKind::Cors,
            StageKind::PrePostHook,
            StageKind::IdentityStamp,
            StageKind::RateLimit,
        ],
{
    let mut r: Vec<StageKind> = Vec::new();
    r.push(StageKind::Logging);
    r.push(StageKind::Cors);
    r.push(StageKind::PrePostHook);
    r.push(StageKind::IdentityStamp);
    r.push(StageKind::RateLimit);
    proof {
        assert(r@ =~= seq![
            StageKind::Logging,
            StageKind::Cors,
            StageKind::PrePostHook,
            StageKind::IdentityStamp,
            StageKind::RateLimit,
        ]);
    }
    r
}

/// Law: a short-circuiting stage prevents the terminal handler from being
/// invoked at all — its trace holds no handler event — while every stage
/// before it still runs its post-processing half, in reverse order, after
/// the halt.
pub proof fn lemma_short_circuit_shields_handler(k: int)
    requires
        0 <= k,
    ensures
        !halted_trace_spec(k).contains(ChainEvent::Handler),
        halted_trace_spec(k).subrange(0, k) == pre_events(k),
        halted_trace_spec(k)[k] == ChainEvent::Halted(k as usize),
        halted_trace_spec(k).subrange(k + 1, 2 * k + 1) == post_events_rev(k),
        forall|j: int|
            0 <= j < k ==> #[trigger] halted_trace_spec(k).contains(ChainEvent::Post(j as usize)),
{
    let tr = halted_trace_spec(k);
    assert(tr.len() == 2 * k + 1);
    assert forall|idx: int| 0 <= idx < tr.len() implies tr[idx] != ChainEvent::Handler by {
        if idx < k {
            assert(tr[idx] == ChainEvent::Pre(idx as usize));
        } else if idx == k {
            assert(tr[idx] == ChainEvent::Halted(k as usize));
        } else {
            assert(tr[idx] == ChainEvent::Post((k - 1 - (idx - k - 1)) as usize));
        }
    }
    assert(tr.subrange(0, k) =~= pre_events(k));
    assert(tr.subrange(k + 1, 2 * k + 1) =~= post_events_rev(k));
    assert forall|j: int| 0 <= j < k implies #[trigger] halted_trace_spec(k).contains(
        ChainEvent::Post(j as usize),
    ) by {
        assert(tr[2 * k - j] == ChainEvent::Post(j as usize));
    }
}

} // verus!
