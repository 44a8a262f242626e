use artifacts_client::retry::{run_retry_schedule, RetryState};

#[test]
fn fails_twice_then_succeeds() {
    // the operation fails exactly twice, then succeeds; max_retries = 3 >= 2
    let outcomes: Vec<Result<i32, &str>> = vec![Err("down"), Err("down"), Ok(7), Ok(99)];
    let run = run_retry_schedule(outcomes, 3, 100);
    assert_eq!(run.result, Ok(7));
    assert_eq!(run.invocations, 3);
    assert_eq!(run.delays_ms, vec![100, 200]);
}

#[test]
fn succeeds_first_time() {
    let outcomes: Vec<Result<i32, &str>> = vec![Ok(1), Err("down")];
    let run = run_retry_schedule(outcomes, 1, 50);
    assert_eq!(run.result, Ok(1));
    assert_eq!(run.invocations, 1);
    assert_eq!(run.delays_ms, Vec::<u64>::new());
}

#[test]
fn always_fails_returns_the_last_error() {
    // max_retries = 2: exactly 3 invocations, the final error is returned
    let outcomes: Vec<Result<i32, &str>> = vec![Err("first"), Err("second"), Err("last")];
    let run = run_retry_schedule(outcomes, 2, 100);
    assert_eq!(run.result, Err("last"));
    assert_eq!(run.invocations, 3);
    assert_eq!(run.delays_ms, vec![100, 200]);
}

#[test]
fn zero_retries_invokes_once() {
    let outcomes: Vec<Result<i32, &str>> = vec![Err("down")];
    let run = run_retry_schedule(outcomes, 0, 100);
    assert_eq!(run.result, Err("down"));
    assert_eq!(run.invocations, 1);
    assert!(run.delays_ms.is_empty());
}

#[test]
fn delay_doubles_without_cap() {
    let outcomes: Vec<Result<i32, &str>> =
        vec![Err("e"), Err("e"), Err("e"), Err("e"), Err("e"), Err("e")];
    let run = run_retry_schedule(outcomes, 5, 3);
    assert_eq!(run.invocations, 6);
    assert_eq!(run.delays_ms, vec![3, 6, 12, 24, 48]);
}

#[test]
fn retry_state_schedule() {
    let mut st = RetryState::new(2, 500);
    assert_eq!(st.retries_left, 2);
    assert_eq!(st.delay_ms, 500);
    assert_eq!(st.on_failure(), Some(500));
    assert_eq!(st.delay_ms, 1000);
    assert_eq!(st.on_failure(), Some(1000));
    assert_eq!(st.delay_ms, 2000);
    assert_eq!(st.retries_left, 0);
    assert_eq!(st.on_failure(), None);
    assert_eq!(st.on_failure(), None);
}
