//! Freshness of a pool client's state and the decisions of its refreshes.
use vstd::prelude::*;

use crate::key::Key;

verus! {

/// How many times a request refreshes a stale pool before it goes on.
pub const REFRESH_ATTEMPTS: u32 = 3;

/// A pool client's state is stale when it was never refreshed, or when more
/// than `ttl` time units passed since its last refresh.
pub open spec fn stale(last_refreshed: Option<u64>, now: u64, ttl: u64) -> bool {
    match last_refreshed {
        None => true,
        Some(t) => now as int - t as int > ttl as int,
    }
}

pub fn is_stale(last_refreshed: Option<u64>, now: u64, ttl: u64) -> (r: bool)
    ensures
        r == stale(last_refreshed, now, ttl),
{
    match last_refreshed {
        None => true,
        Some(t) => now > t && now - t > ttl,
    }
}

/// With no time to live, any later access finds the state stale; with the
/// largest time to live, no access finds a refreshed state stale.
pub proof fn lemma_ttl_extremes(refreshed_at: u64, now: u64)
    ensures
        now > refreshed_at ==> stale(Some(refreshed_at), now, 0),
        !stale(Some(refreshed_at), now, u64::MAX),
{
}

/// The next move of a request that brings a pool up to date first.
#[derive(Clone, Copy, Debug, PartialEq, Eq, Structural)]
pub enum RefreshStep {
    /// Fetch the pool's accounts and apply them.
    Attempt,
    /// Go on with the state there is.
    Proceed,
}

/// Best-effort refresh of one request: a stale pool is refreshed until one
/// attempt succeeds or the attempts run out; failures are passed over.
#[derive(Clone, Copy, Debug)]
pub struct RefreshRetry {
    attempts: u32,
    settled: bool,
}

impl RefreshRetry {
    pub closed spec fn attempts(&self) -> nat {
        self.attempts as nat
    }

    pub closed spec fn settled(&self) -> bool {
        self.settled
    }

    pub open spec fn next_spec(&self) -> RefreshStep {
        if !self.settled() && self.attempts() < REFRESH_ATTEMPTS {
            RefreshStep::Attempt
        } else {
            RefreshStep::Proceed
        }
    }

    #[verifier::type_invariant]
    closed spec fn wf(&self) -> bool {
        self.attempts <= REFRESH_ATTEMPTS
    }

    /// Starts the refresh of a request; a fresh pool needs none.
    pub fn begin(stale: bool) -> (r: RefreshRetry)
        ensures
            r.attempts() == 0,
            r.settled() == !stale,
    {
        RefreshRetry { attempts: 0, settled: !stale }
    }

    pub fn next(&self) -> (r: RefreshStep)
        ensures
            r == self.next_spec(),
    {
        if !self.settled && self.attempts < REFRESH_ATTEMPTS {
            RefreshStep::Attempt
        } else {
            RefreshStep::Proceed
        }
    }

    /// Records the outcome of an attempt that `next` asked for.
    pub fn record(&mut self, succeeded: bool)
        requires
            old(self).next_spec() == RefreshStep::Attempt,
        ensures
            final(self).attempts() == old(self).attempts() + 1,
            final(self).attempts() <= REFRESH_ATTEMPTS,
            final(self).settled() == succeeded,
    {
        *self = RefreshRetry { attempts: self.attempts + 1, settled: succeeded };
    }
}

/// A request asks for an attempt only while it has attempts left, and goes
/// on once one attempt succeeded or all of them were made, whatever the
/// outcomes were.
pub proof fn lemma_refresh_bounded(r: RefreshRetry)
    ensures
        r.next_spec() == RefreshStep::Attempt ==> r.attempts() < REFRESH_ATTEMPTS,
        r.attempts() >= REFRESH_ATTEMPTS ==> r.next_spec() == RefreshStep::Proceed,
        r.settled() ==> r.next_spec() == RefreshStep::Proceed,
{
}

/// The fetched accounts among the first `n` requested ones, with their
/// addresses, in order; an account the ledger did not return is left out.
pub open spec fn present_upto<A>(addresses: Seq<Key>, fetched: Seq<Option<A>>, n: nat) -> Seq<(Key, A)>
    decreases n,
{
    if n == 0 {
        Seq::empty()
    } else {
        let rest = present_upto(addresses, fetched, (n - 1) as nat);
        match fetched[n - 1] {
            Some(a) => rest.push((addresses[n - 1], a)),
            None => rest,
        }
    }
}

pub open spec fn present<A>(addresses: Seq<Key>, fetched: Seq<Option<A>>) -> Seq<(Key, A)> {
    let n = if addresses.len() < fetched.len() { addresses.len() } else { fetched.len() };
    present_upto(addresses, fetched, n)
}

/// Pairs each requested address with what the ledger returned for it,
/// keeping only the accounts that exist; the batch a refresh applies.
pub fn collect_fetched<A>(addresses: &Vec<Key>, fetched: Vec<Option<A>>) -> (r: Vec<(Key, A)>)
    ensures
        r@ == present(addresses@, fetched@),
{
    let ghost all = fetched@;
    let n: usize = if addresses.len() < fetched.len() { addresses.len() } else { fetched.len() };
    let mut rest = fetched;
    let mut out: Vec<(Key, A)> = Vec::new();
    let mut i: usize = 0;
    while i < n
        invariant
            n <= addresses@.len(),
            n <= all.len(),
            i <= n,
            rest@ == all.subrange(i as int, all.len() as int),
            out@ == present_upto(addresses@, all, i as nat),
        decreases n - i,
    {
        let item = rest.remove(0);
        assert(item == all[i as int]);
        match item {
            Some(a) => {
                out.push((addresses[i], a));
            },
            None => {},
        }
        assert(rest@ =~= all.subrange(i + 1, all.len() as int));
        i = i + 1;
    }
    out
}

/// The state a pool client's readers see: the last batch applied whole,
/// and when.
pub struct PoolSnapshot<A> {
    pub batch: Vec<(Key, A)>,
    pub refreshed_at: Option<u64>,
}

impl<A> PoolSnapshot<A> {
    pub fn new() -> (r: PoolSnapshot<A>)
        ensures
            r.batch@ == Seq::<(Key, A)>::empty(),
            r.refreshed_at is None,
    {
        PoolSnapshot { batch: Vec::new(), refreshed_at: None }
    }

    /// Applies the outcome of one refresh: a fetched batch replaces the
    /// state whole and stamps it with `now`; a failed fetch leaves the
    /// previous state as it was, still usable.
    pub fn apply_refresh(&mut self, outcome: Option<Vec<(Key, A)>>, now: u64)
        ensures
            (final(self).batch@, final(self).refreshed_at) == refreshed(
                (old(self).batch@, old(self).refreshed_at),
                batch_view(outcome),
                now,
            ),
    {
        match outcome {
            Some(b) => {
                self.batch = b;
                self.refreshed_at = Some(now);
            },
            None => {},
        }
    }
}

pub open spec fn batch_view<A>(outcome: Option<Vec<(Key, A)>>) -> Option<Seq<(Key, A)>> {
    match outcome {
        Some(b) => Some(b@),
        None => None,
    }
}

/// One refresh on the model of a snapshot.
pub open spec fn refreshed<A>(
    s: (Seq<(Key, A)>, Option<u64>),
    outcome: Option<Seq<(Key, A)>>,
    now: u64,
) -> (Seq<(Key, A)>, Option<u64>) {
    match outcome {
        Some(b) => (b, Some(now)),
        None => s,
    }
}

/// The snapshot after a sequence of refreshes, the `i`-th at `times[i]`.
pub open spec fn refreshed_all<A>(
    s: (Seq<(Key, A)>, Option<u64>),
    outcomes: Seq<Option<Seq<(Key, A)>>>,
    times: Seq<u64>,
) -> (Seq<(Key, A)>, Option<u64>)
    decreases outcomes.len(),
{
    if outcomes.len() == 0 {
        s
    } else {
        refreshed(
            refreshed_all(s, outcomes.drop_last(), times),
            outcomes.last(),
            times[outcomes.len() - 1],
        )
    }
}

/// Refreshes are all or nothing: after any sequence of them, what readers
/// see is either the initial snapshot untouched or exactly one fetched batch,
/// whole, with the time of the refresh that fetched it.
pub proof fn lemma_refresh_atomic<A>(
    s: (Seq<(Key, A)>, Option<u64>),
    outcomes: Seq<Option<Seq<(Key, A)>>>,
    times: Seq<u64>,
)
    requires
        outcomes.len() <= times.len(),
    ensures
        refreshed_all(s, outcomes, times) == s || exists|i: int|
            0 <= i < outcomes.len() && #[trigger] outcomes[i] is Some && refreshed_all(
                s,
                outcomes,
                times,
            ) == (outcomes[i]->0, Some(times[i])),
    decreases outcomes.len(),
{
    if outcomes.len() > 0 {
        let prefix = outcomes.drop_last();
        lemma_refresh_atomic(s, prefix, times);
        let last = outcomes.len() - 1;
        if outcomes.last() is None {
            if refreshed_all(s, prefix, times) != s {
                let i = choose|i: int|
                    0 <= i < prefix.len() && #[trigger] prefix[i] is Some && refreshed_all(
                        s,
                        prefix,
                        times,
                    ) == (prefix[i]->0, Some(times[i]));
                assert(outcomes[i] == prefix[i]);
            }
        } else {
            assert(outcomes[last] is Some);
        }
    }
}

} // verus!
