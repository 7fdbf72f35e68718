//! Decision logic of the resolution strategies.
//!
//! The network transports run outside the library and hand their outcomes
//! back as plain values; the functions here make every decision the
//! strategies call for: gathering concurrently produced batch results back
//! into input order, judging a provider race by its completion order, and
//! driving a shuffled sequential fallback pass.

use vstd::prelude::*;
use vstd::seq_lib::group_to_multiset_ensures;
use rand::seq::SliceRandom;
use crate::types::provider_all;
use crate::types::DnsError;
use crate::types::Provider;

verus! {

/// Relies on rand's `SliceRandom::shuffle` with `thread_rng`: the in-place
/// Fisher-Yates shuffle only swaps elements, so whatever permutation comes
/// out, the elements and their multiplicities are unchanged.
#[verifier::external_body]
fn shuffle_in_place(v: &mut Vec<Provider>)
    ensures
        final(v)@.to_multiset() == old(v)@.to_multiset(),
        final(v)@.len() == old(v)@.len(),
{
    v.shuffle(&mut rand::thread_rng());
}

/// The outcome that a completion list assigns to slot `i`: the payload of the
/// last completion carrying index `i`, if any.
pub open spec fn slot_of<T>(completions: Seq<(usize, T)>, i: int) -> Option<T>
    decreases completions.len(),
{
    if completions.len() == 0 {
        None
    } else if completions.last().0 == i {
        Some(completions.last().1)
    } else {
        slot_of(completions.drop_last(), i)
    }
}

/// Gather the arbitrarily ordered `(index, outcome)` completions of `n`
/// concurrent batch units into a vector ordered by unit index.
///
/// Slot `i` of the result holds the outcome reported for index `i`, wherever
/// in the completion list it appeared, so the output order matches the input
/// order of the batch no matter in which order the units finished. A slot for
/// which no completion was handed in is reported as a query failure.
pub fn collect_batch<T>(n: usize, completions: Vec<(usize, Result<T, DnsError>)>) -> (out: Vec<
    Result<T, DnsError>,
>)
    ensures
        out@.len() == n,
        forall|i: int|
            0 <= i < n ==> match #[trigger] slot_of(completions@, i) {
                Some(r) => out@[i] == r,
                None => out@[i] matches Err(DnsError::QueryError(m)) && m@ == "task failed"@,
            },
{
    let ghost all = completions@;
    let mut completions = completions;

    let mut out: Vec<Result<T, DnsError>> = Vec::new();
    let mut filled: Vec<bool> = Vec::new();
    while out.len() < n
        invariant
            out@.len() == filled@.len() <= n,
            forall|i: int|
                0 <= i < out@.len() ==> ((#[trigger] out@[i]) matches Err(DnsError::QueryError(m))
                    && m@ == "task failed"@),
            forall|i: int| 0 <= i < filled@.len() ==> !filled@[i],
        decreases n - out@.len(),
    {
        out.push(Err(DnsError::QueryError("task failed".to_owned())));
        filled.push(false);
    }

    loop
        invariant_except_break
            out@.len() == n,
            filled@.len() == n,
            completions@.len() <= all.len(),
            completions@ == all.take(completions@.len() as int),
            forall|i: int|
                0 <= i < n && filled@[i] ==> #[trigger] slot_of(all, i) == Some(out@[i]),
            forall|i: int|
                0 <= i < n && !filled@[i] ==> ((#[trigger] out@[i]) matches Err(
                    DnsError::QueryError(m),
                ) && m@ == "task failed"@),
            forall|i: int|
                0 <= i < n && !filled@[i] ==> #[trigger] slot_of(all, i) == slot_of(
                    completions@,
                    i,
                ),
        ensures
            out@.len() == n,
            forall|i: int|
                0 <= i < n ==> match #[trigger] slot_of(all, i) {
                    Some(r) => out@[i] == r,
                    None => out@[i] matches Err(DnsError::QueryError(m)) && m@ == "task failed"@,
                },
        decreases completions@.len(),
    {
        let ghost m = completions@.len() as int;
        match completions.pop() {
            None => {
                break;
            },
            Some((idx, outcome)) => {
                proof {
                    assert(all.take(m).drop_last() =~= all.take(m - 1));
                    assert(all.take(m).last() == all[m - 1]);
                }
                if idx < n {
                    if !filled[idx] {
                        out.set(idx, outcome);
                        filled.set(idx, true);
                    }
                }
            },
        }
    }
    out
}

/// One observed completion of a racing provider attempt.
pub enum RaceEvent<T> {
    /// The attempt succeeded with a payload, naming the provider that
    /// answered and the elapsed time in milliseconds.
    Success { payload: T, provider: Provider, elapsed_ms: u64 },
    /// The attempt failed, with a human-readable description.
    Failure { message: String },
}

/// Whether every event from position `from` on is a failure.
pub open spec fn all_failures_from<T>(events: Seq<RaceEvent<T>>, from: int) -> bool {
    forall|i: int| from <= i < events.len() ==> events[i] is Failure
}

/// Whether the event at `i` is the first success of the completion order.
pub open spec fn is_first_success<T>(events: Seq<RaceEvent<T>>, i: int) -> bool {
    &&& 0 <= i < events.len()
    &&& events[i] is Success
    &&& forall|j: int| 0 <= j < i ==> events[j] is Failure
}

/// Judge a provider race from its completion-ordered outcomes: the first
/// success wins and every later completion is disregarded; if every attempt
/// failed, all the failures collapse into a single error carrying only the
/// most recent failure's description.
pub fn race_outcome<T>(events: Vec<RaceEvent<T>>) -> (r: Result<(T, Provider, u64), DnsError>)
    ensures
        r is Ok <==> !all_failures_from(events@, 0),
        forall|i: int|
            is_first_success(events@, i) ==> (events@[i] matches RaceEvent::Success {
                payload,
                provider,
                elapsed_ms,
            } && r == Ok::<(T, Provider, u64), DnsError>((payload, provider, elapsed_ms))),
        events@.len() > 0 && all_failures_from(events@, 0) ==> (events@.last() matches
            RaceEvent::Failure { message } && r matches Err(DnsError::AllProvidersFailed(d))
            && d@ == message@),
        events@.len() == 0 ==> (r matches Err(DnsError::AllProvidersFailed(d)) && d@
            == "No providers available"@),
{
    let ghost all = events@;
    let total = events.len();
    let mut events = events;
    let mut best: Option<(T, Provider, u64)> = None;
    let mut last_failure: Option<String> = None;

    loop
        invariant_except_break
            all.len() == total,
            events@.len() <= all.len(),
            events@ == all.take(events@.len() as int),
            best is None <==> all_failures_from(all, events@.len() as int),
            best matches Some(w) ==> exists|i: int|
                {
                    &&& events@.len() <= i < all.len()
                    &&& (#[trigger] all[i]) matches RaceEvent::Success { payload, provider, elapsed_ms }
                    &&& w == ((payload, provider, elapsed_ms))
                    &&& forall|j: int| events@.len() <= j < i ==> (#[trigger] all[j]) is Failure
                },
            events@.len() == all.len() ==> last_failure is None,
            events@.len() < all.len() && all.last() is Failure ==> (all.last() matches
                RaceEvent::Failure { message } && last_failure matches Some(s) && s@ == message@),
            events@.len() < all.len() && all.last() is Success ==> last_failure is None,
        ensures
            best is None <==> all_failures_from(all, 0),
            best matches Some(w) ==> exists|i: int|
                {
                    &&& 0 <= i < all.len()
                    &&& (#[trigger] all[i]) matches RaceEvent::Success { payload, provider, elapsed_ms }
                    &&& w == ((payload, provider, elapsed_ms))
                    &&& forall|j: int| 0 <= j < i ==> (#[trigger] all[j]) is Failure
                },
            all.len() == 0 ==> last_failure is None,
            all.len() > 0 && all.last() is Failure ==> (all.last() matches RaceEvent::Failure {
                message,
            } && last_failure matches Some(s) && s@ == message@),
        decreases events@.len(),
    {
        let ghost m = events@.len() as int;
        let first_pop = events.len() == total;
        match events.pop() {
            None => {
                break;
            },
            Some(ev) => {
                proof {
                    assert(all.take(m).drop_last() =~= all.take(m - 1));
                    assert(all.take(m).last() == all[m - 1]);
                }
                match ev {
                    RaceEvent::Success { payload, provider, elapsed_ms } => {
                        best = Some((payload, provider, elapsed_ms));
                    },
                    RaceEvent::Failure { message } => {
                        if first_pop {
                            last_failure = Some(message);
                        }
                    },
                }
            },
        }
    }

    match best {
        Some(w) => Ok(w),
        None => {
            match last_failure {
                Some(d) => Err(DnsError::AllProvidersFailed(d)),
                None => Err(DnsError::AllProvidersFailed("No providers available".to_owned())),
            }
        },
    }
}

/// One pass of the shuffled sequential fallback strategy: the providers in a
/// fresh uniformly random order, and how many attempts have been started.
pub struct FallbackPlan {
    /// The order in which this pass offers the providers.
    pub providers: Vec<Provider>,
    /// The position of the next provider to offer.
    pub next_index: usize,
}

/// The decision a fallback pass hands back for each attempt.
pub enum FallbackStep {
    /// Try this provider next.
    Attempt(Provider),
    /// Every provider has been tried: stop with this error.
    GiveUp(DnsError),
}

impl FallbackPlan {
    /// A fresh pass over all known providers, in a fresh uniformly random
    /// order.
    pub fn new() -> (r: FallbackPlan)
        ensures
            r.providers@.to_multiset() == provider_all().to_multiset(),
            r.providers@.len() == provider_all().len(),
            r.providers@.no_duplicates(),
            r.next_index == 0,
    {
        let mut providers = Provider::all();
        shuffle_in_place(&mut providers);
        let plan = FallbackPlan { providers, next_index: 0 };
        proof {
            lemma_fallback_tries_each_provider_once(plan);
        }
        plan
    }

    /// How many attempts have been started.
    pub fn attempts_started(&self) -> (r: usize)
        ensures
            r == self.next_index,
    {
        self.next_index
    }

    /// The next decision of the pass. While providers are left, each call
    /// starts one attempt, moving through the shuffled order one provider at
    /// a time; the failure of the previous attempt, if any, is discarded.
    /// Once every provider has been offered, the pass gives up with the error
    /// of the last attempt, so earlier failures are never aggregated.
    pub fn next_step(&mut self, last_failure: Option<DnsError>) -> (step: FallbackStep)
        ensures
            final(self).providers == old(self).providers,
            old(self).next_index < old(self).providers@.len() ==> {
                &&& step == FallbackStep::Attempt(
                    old(self).providers@[old(self).next_index as int],
                )
                &&& final(self).next_index == old(self).next_index + 1
            },
            old(self).next_index >= old(self).providers@.len() ==> {
                &&& final(self).next_index == old(self).next_index
                &&& match last_failure {
                    Some(e) => step == FallbackStep::GiveUp(e),
                    None => step matches FallbackStep::GiveUp(DnsError::AllProvidersFailed(d))
                        && d@ == "No providers available"@,
                }
            },
    {
        if self.next_index < self.providers.len() {
            let p = self.providers[self.next_index];
            self.next_index = self.next_index + 1;
            FallbackStep::Attempt(p)
        } else {
            match last_failure {
                Some(e) => FallbackStep::GiveUp(e),
                None => FallbackStep::GiveUp(
                    DnsError::AllProvidersFailed("No providers available".to_owned()),
                ),
            }
        }
    }
}

/// Law: one fallback pass tries every provider at most once. Whatever
/// permutation the shuffle produced, the order a pass draws its attempts from
/// holds each known provider exactly once, so after as many attempts as there
/// are providers the pass has tried them all and gives up.
pub proof fn lemma_fallback_tries_each_provider_once(plan: FallbackPlan)
    requires
        plan.providers@.to_multiset() == provider_all().to_multiset(),
    ensures
        plan.providers@.len() == provider_all().len(),
        forall|p: Provider| #[trigger] plan.providers@.to_multiset().count(p) == 1,
        plan.providers@.no_duplicates(),
{
    broadcast use group_to_multiset_ensures;

    let s = provider_all();
    assert(plan.providers@.to_multiset().len() == plan.providers@.len());
    assert(s.to_multiset().len() == s.len());
    assert(s.no_duplicates());
    s.lemma_multiset_has_no_duplicates();
    assert forall|p: Provider| #[trigger] s.to_multiset().count(p) == 1 by {
        match p {
            Provider::Cloudflare => assert(s.contains(p)) by { assert(s[0] == p) },
            Provider::Google => assert(s.contains(p)) by { assert(s[1] == p) },
            Provider::Quad9 => assert(s.contains(p)) by { assert(s[2] == p) },
            Provider::NextDns => assert(s.contains(p)) by { assert(s[3] == p) },
        }
    }
    plan.providers@.lemma_multiset_has_no_duplicates_conv();
}

} // verus!
