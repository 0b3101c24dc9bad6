use llm_retry::RetryError;

#[test]
fn into_inner_and_attempts_on_both_arms() {
    let exhausted: RetryError<&str> = RetryError::Exhausted { last_err: "nope", attempts: 4 };
    assert_eq!(exhausted.attempts(), 4);
    assert_eq!(exhausted.into_inner(), "nope");

    let fatal: RetryError<i32> = RetryError::NotRetryable(-3);
    assert_eq!(fatal.attempts(), 1);
    assert_eq!(fatal.into_inner(), -3);
}
