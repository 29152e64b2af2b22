//! Bounded retry with a fixed delay between attempts: the policy of every
//! outbound network call.
//!
//! The policy is pure: given the outcomes the successive attempts of an
//! operation would produce, `tryn` returns what the helper hands its caller
//! and how many attempts were spent. Sleeping the fixed delay between
//! attempts is the caller's business — the delay never changes which outcome
//! is returned.

use vstd::prelude::*;

verus! {

/// The index of the first successful outcome among the first `n`, if any.
pub open spec fn first_ok_before<T, E>(s: Seq<Result<T, E>>, n: int) -> Option<int>
    decreases n,
{
    if n <= 0 {
        None
    } else {
        match first_ok_before(s, n - 1) {
            Some(i) => Some(i),
            None => if s[n - 1] is Ok {
                Some(n - 1)
            } else {
                None
            },
        }
    }
}

/// Law (retry, exhaustion): when every one of the first `n` attempts fails,
/// no attempt succeeds — `tryn` then makes exactly `n` attempts and returns
/// the last failure.
pub proof fn lemma_retry_exhausted<T, E>(s: Seq<Result<T, E>>, n: int)
    requires
        0 <= n <= s.len(),
        forall|j: int| 0 <= j < n ==> (#[trigger] s[j]) is Err,
    ensures
        first_ok_before(s, n) is None,
    decreases n,
{
    if n > 0 {
        lemma_retry_exhausted(s, n - 1);
    }
}

/// Law (retry, early success): when the first `k < n` attempts fail and
/// attempt `k + 1` succeeds, the first success sits at `k` — `tryn` then
/// returns that success after `k + 1 <= n` attempts, fewer than `n` whenever
/// `k < n - 1`.
pub proof fn lemma_retry_first_success<T, E>(s: Seq<Result<T, E>>, n: int, k: int)
    requires
        0 <= k < n <= s.len(),
        forall|j: int| 0 <= j < k ==> (#[trigger] s[j]) is Err,
        s[k] is Ok,
    ensures
        first_ok_before(s, n) == Some(k),
    decreases n,
{
    if k < n - 1 {
        lemma_retry_first_success(s, n - 1, k);
    } else {
        lemma_retry_exhausted(s, n - 1);
    }
}

/// Attempt an operation up to `n` times: the first success is returned at
/// once, together with the number of attempts spent; with no success among
/// the `n` attempts, the `n`-th outcome — the last failure — is returned.
/// `outcomes` holds what the attempts would produce, in order; attempts past
/// the returned count are never looked at.
#[verifier::loop_isolation(false)]
pub fn tryn<T, E>(n: usize, outcomes: Vec<Result<T, E>>) -> (r: (Result<T, E>, usize))
    requires
        1 <= n <= outcomes@.len(),
    ensures
        first_ok_before(outcomes@, n as int) matches Some(i) ==> r.0 == outcomes@[i] && r.1 == i
            + 1 && r.0 is Ok,
        first_ok_before(outcomes@, n as int) is None ==> r.0 == outcomes@[n - 1] && r.1 == n,
        1 <= r.1 <= n,
{
    let mut rest = outcomes;
    let ghost s = rest@;
    let mut i: usize = 0;
    while i < n - 1
        invariant
            i < n <= s.len(),
            rest@ == s,
            forall|j: int| 0 <= j < i ==> (#[trigger] s[j]) is Err,
        decreases n - i,
    {
        if rest[i].is_ok() {
            proof {
                lemma_retry_first_success(s, n as int, i as int);
            }
            let v = rest.remove(i);
            return (v, i + 1);
        }
        i += 1;
    }
    proof {
        lemma_retry_exhausted(s, n - 1);
    }
    let v = rest.remove(n - 1);
    (v, n)
}

} // verus!
