//! Resilient-call wrapper: runs an operation up to a bounded number of
//! attempts with pure exponential backoff between failures.
//!
//! The operation is handed the 1-indexed attempt number. Waiting is delegated
//! to a caller-supplied callback so that the retry policy itself is fully
//! verified while the actual sleeping stays outside the library.

use vstd::prelude::*;

verus! {

/// Why a retried operation did not produce a value.
#[derive(Debug)]
pub enum RetryError<E> {
    /// The caller allowed zero attempts; the operation was never invoked.
    NoAttemptsAllowed,
    /// Every allowed attempt failed; `error` is the failure of the last one.
    Exhausted { attempts: u32, error: E },
}

/// A successful outcome, together with the attempt that produced it.
#[derive(Debug)]
pub struct RetrySuccess<T> {
    pub value: T,
    pub attempts: u32,
}

/// 2 to the power `k`.
pub open spec fn pow2n(k: nat) -> nat
    decreases k,
{
    if k == 0 {
        1
    } else {
        2 * pow2n((k - 1) as nat)
    }
}

/// Backoff before the retry that follows failed attempt `attempt`:
/// `base * 2^(attempt-1)`, not yet saturated.
pub open spec fn spec_backoff(base: nat, attempt: nat) -> nat
    recommends
        attempt >= 1,
{
    base * pow2n((attempt - 1) as nat)
}

/// Delay in seconds before the retry that follows failed attempt `attempt`
/// (1-indexed), saturating at `u64::MAX`.
pub fn backoff_delay(base_delay_secs: u64, attempt: u32) -> (r: u64)
    requires
        attempt >= 1,
    ensures
        spec_backoff(base_delay_secs as nat, attempt as nat) <= u64::MAX ==> r == spec_backoff(
            base_delay_secs as nat,
            attempt as nat,
        ),
        spec_backoff(base_delay_secs as nat, attempt as nat) > u64::MAX ==> r == u64::MAX,
{
    let mut acc: u64 = base_delay_secs;
    let mut k: u32 = 0;
    proof {
        assert(pow2n(0) == 1);
        assert(base_delay_secs as nat * 1 == base_delay_secs as nat);
    }
    while k < attempt - 1
        invariant
            attempt >= 1,
            0 <= k <= attempt - 1,
            spec_backoff(base_delay_secs as nat, (k + 1) as nat) <= u64::MAX ==> acc
                == spec_backoff(base_delay_secs as nat, (k + 1) as nat),
            spec_backoff(base_delay_secs as nat, (k + 1) as nat) > u64::MAX ==> acc == u64::MAX,
        decreases attempt - 1 - k,
    {
        proof {
            assert(pow2n((k + 1) as nat) == 2 * pow2n(k as nat));
            assert(base_delay_secs * (2 * pow2n(k as nat)) == 2 * (base_delay_secs * pow2n(
                k as nat,
            ))) by (nonlinear_arith);
        }
        acc = match acc.checked_mul(2) {
            Some(v) => v,
            None => u64::MAX,
        };
        k += 1;
    }
    acc
}

/// Some behaviour of `op` on attempt `j` is a failure.
pub open spec fn fails_at<T, E, Op: Fn(u32) -> Result<T, E>>(op: Op, j: u32) -> bool {
    exists|e: E| call_ensures(op, (j,), Err(e))
}

/// Everything `with_retry` promises of its result: an `Ok` names the attempt
/// that produced the value, every earlier attempt having failed; an
/// exhaustion error carries the full attempt count and the last failure.
pub open spec fn retry_post<T, E, Op: Fn(u32) -> Result<T, E>>(
    op: Op,
    max_attempts: u32,
    r: Result<RetrySuccess<T>, RetryError<E>>,
) -> bool {
    &&& (max_attempts == 0 <==> r matches Err(RetryError::NoAttemptsAllowed))
    &&& (r matches Ok(s) ==> {
        &&& 1 <= s.attempts <= max_attempts
        &&& call_ensures(op, (s.attempts,), Ok(s.value))
        &&& forall|j: u32| 1 <= j < s.attempts ==> #[trigger] fails_at(op, j)
    })
    &&& (r matches Err(RetryError::Exhausted { attempts, error }) ==> {
        &&& attempts == max_attempts
        &&& max_attempts >= 1
        &&& call_ensures(op, (max_attempts,), Err(error))
        &&& forall|j: u32| 1 <= j < max_attempts ==> #[trigger] fails_at(op, j)
    })
}

/// Run `op` up to `max_attempts` times (1-indexed attempt number passed in).
///
/// On failure of attempt `a < max_attempts`, `wait` is called with the
/// exponential-backoff delay `base_delay_secs * 2^(a-1)` (saturating), then
/// the operation is retried. The first success is returned at once; the
/// error of the final attempt is returned when every attempt fails.
/// `max_attempts == 0` is refused without invoking the operation.
pub fn with_retry<T, E, Op: Fn(u32) -> Result<T, E>, W: Fn(u64)>(
    max_attempts: u32,
    base_delay_secs: u64,
    op: Op,
    wait: W,
) -> (r: Result<RetrySuccess<T>, RetryError<E>>)
    requires
        forall|a: u32| 1 <= a <= max_attempts ==> call_requires(op, (a,)),
        forall|d: u64| call_requires(wait, (d,)),
    ensures
        retry_post(op, max_attempts, r),
{
    if max_attempts == 0 {
        return Err(RetryError::NoAttemptsAllowed);
    }
    let mut attempt: u32 = 1;
    loop
        invariant
            1 <= attempt <= max_attempts,
            max_attempts >= 1,
            forall|a: u32| 1 <= a <= max_attempts ==> call_requires(op, (a,)),
            forall|d: u64| call_requires(wait, (d,)),
            forall|j: u32| 1 <= j < attempt ==> #[trigger] fails_at(op, j),
        decreases max_attempts - attempt,
    {
        match op(attempt) {
            Ok(v) => {
                return Ok(RetrySuccess { value: v, attempts: attempt });
            },
            Err(e) => {
                if attempt == max_attempts {
                    return Err(RetryError::Exhausted { attempts: attempt, error: e });
                }
                let delay = backoff_delay(base_delay_secs, attempt);
                wait(delay);
                proof {
                    assert(fails_at(op, attempt)) by {
                        assert(call_ensures(op, (attempt,), Result::<T, E>::Err(e)));
                    }
                }
                attempt += 1;
            },
        }
    }
}

/// An operation that fails on attempts `1..=k` and succeeds on attempt
/// `k + 1 <= max_attempts` drives `with_retry` to return that success, with
/// the operation invoked exactly `k + 1` times.
pub proof fn lemma_retry_succeeds_after_failures<T, E, Op: Fn(u32) -> Result<T, E>>(
    op: Op,
    max_attempts: u32,
    k: u32,
    r: Result<RetrySuccess<T>, RetryError<E>>,
)
    requires
        k < max_attempts,
        forall|a: u32, out: Result<T, E>| #[trigger] call_ensures(op, (a,), out) ==> ((1 <= a <= k
            ==> out is Err) && (a == k + 1 ==> out is Ok)),
        retry_post(op, max_attempts, r),
    ensures
        r matches Ok(s) && s.attempts == k + 1,
{
    match r {
        Ok(s) => {
            if s.attempts <= k {
                assert(false);
            }
            if s.attempts > k + 1 {
                let j: u32 = (k + 1) as u32;
                assert(fails_at(op, j));
                let e = choose|e: E| call_ensures(op, (j,), Err(e));
                assert(false);
            }
        },
        Err(RetryError::NoAttemptsAllowed) => {
            assert(max_attempts == 0);
            assert(false);
        },
        Err(RetryError::Exhausted { attempts, error }) => {
            if max_attempts == k + 1 {
                assert(call_ensures(op, (max_attempts,), Result::<T, E>::Err(error)));
                assert(false);
            } else {
                let j: u32 = (k + 1) as u32;
                assert(fails_at(op, j));
                let e = choose|e: E| call_ensures(op, (j,), Err(e));
                assert(false);
            }
        },
    }
}

/// An operation that can only fail drives `with_retry` (with at least one
/// attempt allowed) to an exhaustion error carrying exactly `max_attempts`
/// as its attempt count.
pub proof fn lemma_retry_exhausts_on_constant_failure<T, E, Op: Fn(u32) -> Result<T, E>>(
    op: Op,
    max_attempts: u32,
    r: Result<RetrySuccess<T>, RetryError<E>>,
)
    requires
        max_attempts >= 1,
        forall|a: u32, out: Result<T, E>| #[trigger] call_ensures(op, (a,), out) ==> out is Err,
        retry_post(op, max_attempts, r),
    ensures
        r matches Err(RetryError::Exhausted { attempts, error }) && attempts == max_attempts,
{
    match r {
        Ok(s) => {
            assert(call_ensures(op, (s.attempts,), Result::<T, E>::Ok(s.value)));
            assert(false);
        },
        Err(RetryError::NoAttemptsAllowed) => {
            assert(false);
        },
        Err(RetryError::Exhausted { attempts, error }) => {
        },
    }
}

} // verus!
