//! The decisions of a retry loop, one attempt at a time.
//!
//! A driver calls the operation, reports how the attempt went, and gets back
//! either the loop's final result or the pause to take before the next call.

use rand::rngs::StdRng;
use vstd::prelude::*;

use crate::config::{Jitter, RetryConfig};
use crate::delay::Delay;
use crate::error::RetryError;

verus! {

/// How one call of the operation went.
#[derive(Debug)]
pub enum Attempt<T, E> {
    /// The call returned a value.
    Succeeded(T),
    /// The call failed with `err`; `retryable` is what the caller's predicate
    /// said of that error.
    Failed {
        /// The error the call returned.
        err: E,
        /// Whether the error may be retried.
        retryable: bool,
    },
}

impl<T, E> Attempt<T, E> {
    /// The call failed with an error that may be retried.
    pub open spec fn is_retryable_failure(self) -> bool {
        match self {
            Attempt::Failed { retryable, .. } => retryable,
            Attempt::Succeeded(_) => false,
        }
    }

    /// The call failed with an error that may not be retried.
    pub open spec fn is_fatal(self) -> bool {
        match self {
            Attempt::Failed { retryable, .. } => !retryable,
            Attempt::Succeeded(_) => false,
        }
    }
}

/// Where a retry loop goes after an attempt.
#[derive(Debug)]
pub enum Next<T, E> {
    /// The loop is over with this result.
    Finish(Result<T, RetryError<E>>),
    /// Call the operation again, after sleeping for `pause` when it is given.
    Again {
        /// The loop's state for the next attempt.
        state: RetryLoop,
        /// The sleep to take first; absent when the backoff came out as zero.
        pause: Option<Delay>,
    },
}

/// The position of a retry loop: which attempt comes next, out of how many.
#[derive(Debug)]
pub struct RetryLoop {
    index: u32,
    budget: u32,
}

impl RetryLoop {
    #[verifier::type_invariant]
    spec fn well_formed(self) -> bool {
        1 <= self.budget && self.index < self.budget
    }

    /// 0-based index of the attempt that is about to run.
    pub closed spec fn index(self) -> nat {
        self.index as nat
    }

    /// The number of attempts the loop runs at most.
    pub closed spec fn budget(self) -> nat {
        self.budget as nat
    }

    /// A loop about to run its first attempt under `config`.
    pub fn start(config: &RetryConfig) -> (l: RetryLoop)
        ensures
            l.index() == 0,
            l.budget() == config.attempt_budget(),
            config.max_attempts >= 1 ==> l.budget() == config.max_attempts,
            config.max_attempts == 0 ==> l.budget() == 1,
    {
        // `max_attempts == 0` is treated as 1: the operation always runs at
        // least once so there is an error (or value) to report.
        let budget = if config.max_attempts == 0 { 1 } else { config.max_attempts };
        RetryLoop { index: 0, budget }
    }

    /// 0-based index of the attempt that is about to run.
    pub fn attempt_index(&self) -> (i: u32)
        ensures
            i == self.index(),
    {
        self.index
    }

    /// The number of attempts the loop runs at most.
    pub fn attempt_budget(&self) -> (n: u32)
        ensures
            n == self.budget(),
            1 <= n,
            self.index() < n,
    {
        proof {
            use_type_invariant(self);
        }
        self.budget
    }

    /// Decide what follows attempt `self.index()` given how it went.
    ///
    /// A success or a non-retryable error ends the loop with it; a retryable
    /// error on the last allowed attempt ends it as `Exhausted`; any other
    /// retryable error leads to another attempt after the backoff that
    /// `config.delay_for(self.index(), rng)` picks, skipped when it is zero.
    pub fn advance<T, E>(self, config: &RetryConfig, attempt: Attempt<T, E>, rng: &mut StdRng) -> (next: Next<T, E>)
        ensures
            self.index() < self.budget(),
            match next {
                Next::Finish(r) => verdict(self.index(), self.budget(), attempt) == Some(r),
                Next::Again { state, pause } => {
                    &&& verdict(self.index(), self.budget(), attempt) is None
                    &&& state.index() == self.index() + 1
                    &&& state.budget() == self.budget()
                    &&& match pause {
                        Some(d) => d.nanos > 0 && config.allows_delay(self.index(), d.nanos as nat),
                        None => config.allows_delay(self.index(), 0),
                    }
                },
            },
            next is Finish ==> *final(rng) == *old(rng),
            config.jitter == Jitter::NoJitter ==> *final(rng) == *old(rng),
            config.jitter == Jitter::NoJitter && next is Again ==> next->pause == (if config.capped_nanos(
                self.index(),
            ) == 0 {
                None
            } else {
                Some(Delay { nanos: config.capped_nanos(self.index()) as u128 })
            }),
    {
        proof {
            use_type_invariant(&self);
        }
        match attempt {
            Attempt::Succeeded(v) => Next::Finish(Ok(v)),
            Attempt::Failed { err, retryable } => {
                if !retryable {
                    Next::Finish(Err(RetryError::NotRetryable(err)))
                } else if self.index + 1 < self.budget {
                    let delay = config.delay_for(self.index, rng);
                    let pause = if delay.is_zero() { None } else { Some(delay) };
                    Next::Again { state: RetryLoop { index: self.index + 1, budget: self.budget }, pause }
                } else {
                    Next::Finish(Err(RetryError::Exhausted { last_err: err, attempts: self.budget }))
                }
            },
        }
    }
}

/// What the loop does with attempt `index` (0-based) out of `budget`:
/// `Some` of its final result when the loop ends there, `None` when another
/// attempt follows.
pub open spec fn verdict<T, E>(index: nat, budget: nat, attempt: Attempt<T, E>) -> Option<
    Result<T, RetryError<E>>,
> {
    match attempt {
        Attempt::Succeeded(v) => Some(Ok(v)),
        Attempt::Failed { err, retryable } => {
            if !retryable {
                Some(Err(RetryError::NotRetryable(err)))
            } else if index + 1 < budget {
                None
            } else {
                Some(Err(RetryError::Exhausted { last_err: err, attempts: budget as u32 }))
            }
        },
    }
}

/// A whole loop of at most `budget` attempts, picked up at attempt `index`,
/// when attempt `k` goes as `attempts[k]`: how many attempts have run when it
/// ends, and its result (`None` only when `attempts` runs out first).
pub open spec fn run_from<T, E>(budget: nat, attempts: Seq<Attempt<T, E>>, index: nat) -> (
    nat,
    Option<Result<T, RetryError<E>>>,
)
    decreases budget - index,
{
    if index < budget && index < attempts.len() {
        match verdict(index, budget, attempts[index as int]) {
            Some(r) => (index + 1, Some(r)),
            None => run_from(budget, attempts, index + 1),
        }
    } else {
        (index, None)
    }
}

/// A whole loop of at most `budget` attempts from its first attempt on.
pub open spec fn run<T, E>(budget: nat, attempts: Seq<Attempt<T, E>>) -> (
    nat,
    Option<Result<T, RetryError<E>>>,
) {
    run_from(budget, attempts, 0)
}

/// A loop picked up at attempt `index` ends after some attempt `n - 1` at or
/// after `index` and within the budget, with that attempt's verdict, and
/// every attempt between led to another one.
proof fn lemma_run_from_shape<T, E>(budget: nat, attempts: Seq<Attempt<T, E>>, index: nat)
    requires
        index < budget <= attempts.len(),
    ensures
        index < run_from(budget, attempts, index).0 <= budget,
        run_from(budget, attempts, index).1 == verdict(
            (run_from(budget, attempts, index).0 - 1) as nat,
            budget,
            attempts[run_from(budget, attempts, index).0 - 1],
        ),
        run_from(budget, attempts, index).1 is Some,
        forall|k: nat|
            index <= k < run_from(budget, attempts, index).0 - 1 ==> #[trigger] verdict(
                k,
                budget,
                attempts[k as int],
            ) is None,
    decreases budget - index,
{
    match verdict(index, budget, attempts[index as int]) {
        Some(r) => {},
        None => {
            lemma_run_from_shape(budget, attempts, index + 1);
        },
    }
}

/// Driving a loop one attempt at a time by `verdict` (as `RetryLoop::advance`
/// does) gives the whole loop's outcome: an attempt that ends the loop ends
/// it with its verdict, and an attempt that does not leaves the outcome to
/// the attempts after it.
pub proof fn law_step_follows_run<T, E>(budget: nat, attempts: Seq<Attempt<T, E>>, index: nat)
    requires
        index < budget <= attempts.len(),
    ensures
        verdict(index, budget, attempts[index as int]) matches Some(r) ==> run_from(
            budget,
            attempts,
            index,
        ) == (index + 1, Some(r)),
        verdict(index, budget, attempts[index as int]) is None ==> run_from(budget, attempts, index)
            == run_from(budget, attempts, index + 1),
{
}

/// A retry loop runs at least one attempt and at most its budget, and it
/// always ends with a result.
pub proof fn law_attempts_within_budget<T, E>(budget: nat, attempts: Seq<Attempt<T, E>>)
    requires
        1 <= budget <= attempts.len(),
    ensures
        1 <= run(budget, attempts).0 <= budget,
        run(budget, attempts).1 is Some,
{
    lemma_run_from_shape(budget, attempts, 0);
}

/// Every attempt but the last of a retry loop failed with an error that the
/// predicate called retryable.
pub proof fn law_only_retryable_failures_are_retried<T, E>(
    budget: nat,
    attempts: Seq<Attempt<T, E>>,
    k: nat,
)
    requires
        1 <= budget <= attempts.len(),
        k + 1 < run(budget, attempts).0,
    ensures
        attempts[k as int].is_retryable_failure(),
{
    lemma_run_from_shape(budget, attempts, 0);
    assert(verdict(k, budget, attempts[k as int]) is None);
}

/// A retry loop hands back the value of the attempt that succeeded, and the
/// error of an attempt that failed with a non-retryable error, unchanged; it
/// stops at the first of either.
pub proof fn law_result_is_last_attempt<T, E>(budget: nat, attempts: Seq<Attempt<T, E>>)
    requires
        1 <= budget <= attempts.len(),
    ensures
        run(budget, attempts).1 matches Some(Ok(v)) ==> attempts[run(budget, attempts).0 - 1]
            == Attempt::<T, E>::Succeeded(v),
        run(budget, attempts).1 matches Some(Err(RetryError::NotRetryable(e))) ==> attempts[run(
            budget,
            attempts,
        ).0 - 1] == (Attempt::<T, E>::Failed { err: e, retryable: false }),
        attempts[run(budget, attempts).0 - 1] is Succeeded ==> run(budget, attempts).1 == Some(
            Ok::<T, RetryError<E>>(attempts[run(budget, attempts).0 - 1]->Succeeded_0),
        ),
        attempts[run(budget, attempts).0 - 1].is_fatal() ==> run(budget, attempts).1 == Some(
            Err::<T, RetryError<E>>(
                RetryError::NotRetryable(attempts[run(budget, attempts).0 - 1]->err),
            ),
        ),
{
    lemma_run_from_shape(budget, attempts, 0);
}

/// A retry loop ends as `Exhausted` only after it has run its whole budget,
/// every attempt failing with a retryable error; it then reports the budget
/// as its attempt count and the last attempt's error.
pub proof fn law_exhausted_after_whole_budget<T, E>(budget: nat, attempts: Seq<Attempt<T, E>>)
    requires
        1 <= budget <= attempts.len(),
        budget <= u32::MAX,
        run(budget, attempts).1 matches Some(Err(RetryError::Exhausted { .. })),
    ensures
        run(budget, attempts).0 == budget,
        run(budget, attempts).1 == Some(
            Err::<T, RetryError<E>>(
                RetryError::Exhausted {
                    last_err: attempts[budget - 1]->err,
                    attempts: budget as u32,
                },
            ),
        ),
        forall|k: int|
            0 <= k < budget ==> #[trigger] attempts[k].is_retryable_failure(),
{
    lemma_run_from_shape(budget, attempts, 0);
    assert forall|k: int| 0 <= k < budget implies #[trigger] attempts[k].is_retryable_failure() by {
        if k < budget - 1 {
            assert(verdict(k as nat, budget, attempts[k]) is None);
        }
    }
}

} // verus!
