# llm_retry

Exponential backoff with jitter for retrying calls to LLM APIs, verified with
Verus.

- `src/config.rs`: `RetryConfig`, `Jitter`, the capped exponential backoff
  and the jittered delay, with the laws of the backoff.
- `src/delay.rs`: `Delay`, a span of time in whole nanoseconds.
- `src/error.rs`: `RetryError`, the result of a loop that did not succeed.
- `src/retry_loop.rs`: `RetryLoop`, the decision taken after each attempt,
  the model of a whole loop (`run`) and its laws.
- `src/predicates.rs`: provider lists of retryable error codes and the
  substring matching over them, with its laws.
- `app/lib.rs`: the blocking `retry` and the tokio `retry_async` drivers,
  which call the operation and sleep, and `RetryError` with `Display`.
