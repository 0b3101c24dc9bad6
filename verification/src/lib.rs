//! Exponential backoff with jitter for retrying calls to LLM APIs.
//!
//! The crate holds what a retry loop decides: the backoff arithmetic
//! ([`RetryConfig::delay_for`]), the step from one attempt to the next
//! ([`RetryLoop::advance`]), the error a failed loop ends with
//! ([`RetryError`]), and provider lists of retryable error codes
//! ([`predicates`]). A driver calls the operation, sleeps, and feeds each
//! outcome back to [`RetryLoop::advance`].

pub mod config;
pub mod delay;
pub mod error;
pub mod predicates;
pub mod retry_loop;

pub use config::{Jitter, RetryConfig};
pub use delay::Delay;
pub use error::RetryError;
pub use retry_loop::{Attempt, Next, RetryLoop};
