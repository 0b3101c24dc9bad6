//! Error type for retry loops.

use vstd::prelude::*;

verus! {

/// Outcome of a retry loop that did not succeed.
#[derive(Debug)]
pub enum RetryError<E> {
    /// All attempts were exhausted. Holds the last error and the total
    /// number of attempts that ran.
    Exhausted {
        /// The error returned on the final attempt.
        last_err: E,
        /// Total attempts executed (including the first).
        attempts: u32,
    },
    /// The predicate said this error is not retryable. Holds it unchanged.
    NotRetryable(E),
}

impl<E> RetryError<E> {
    /// The error carried by either arm.
    pub open spec fn inner(self) -> E {
        match self {
            RetryError::Exhausted { last_err, .. } => last_err,
            RetryError::NotRetryable(e) => e,
        }
    }

    /// The attempt count reported by either arm: the recorded count for
    /// `Exhausted`, 1 for `NotRetryable`.
    pub open spec fn attempt_count(self) -> nat {
        match self {
            RetryError::Exhausted { attempts, .. } => attempts as nat,
            RetryError::NotRetryable(_) => 1,
        }
    }

    /// Unwrap into the inner error if you don't care which arm it is.
    pub fn into_inner(self) -> (e: E)
        ensures
            e == self.inner(),
            self matches RetryError::Exhausted { last_err, .. } ==> e == last_err,
            self matches RetryError::NotRetryable(x) ==> e == x,
    {
        match self {
            RetryError::Exhausted { last_err, .. } => last_err,
            RetryError::NotRetryable(e) => e,
        }
    }

    /// Number of attempts run before giving up. Always 1 for `NotRetryable`.
    pub fn attempts(&self) -> (n: u32)
        ensures
            n == self.attempt_count(),
            self matches RetryError::Exhausted { attempts, .. } ==> n == attempts,
            self is NotRetryable ==> n == 1,
    {
        match self {
            RetryError::Exhausted { attempts, .. } => *attempts,
            RetryError::NotRetryable(_) => 1,
        }
    }
}

/// The accessors hand back what the error records: `Exhausted` its last
/// error and its attempt count, unchanged, for every count; `NotRetryable`
/// its error and a count of one.
pub proof fn law_error_accessors_report_fields<E>(err: RetryError<E>)
    ensures
        err matches RetryError::Exhausted { last_err, attempts } ==> err.inner() == last_err
            && err.attempt_count() == attempts,
        err matches RetryError::NotRetryable(e) ==> err.inner() == e && err.attempt_count() == 1,
{
}

} // verus!
