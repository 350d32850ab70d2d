use wakesp::retry::{RetryError, RetrySender, RetryStep, MAX_TRIES, RETRY_DELAY_MS};

/// Drives a send with a stub whose attempts have the given outcomes, and
/// returns the result, the number of attempts made and the pauses taken.
fn drive(max_attempts: u8, mut stub: impl FnMut() -> bool) -> (Result<(), RetryError>, usize, Vec<u64>) {
    let mut sender = RetrySender::new(max_attempts);
    let mut attempts = 0;
    let mut pauses = Vec::new();
    loop {
        match sender.next_step() {
            RetryStep::Attempt => {
                attempts += 1;
                if let Some(millis) = sender.record(stub()) {
                    pauses.push(millis);
                }
            }
            RetryStep::Succeeded | RetryStep::Exhausted => return (sender.finish(), attempts, pauses),
        }
    }
}

#[test]
fn two_failures_then_success_completes_on_the_third_attempt() {
    let mut outcomes = vec![false, false, true, true].into_iter();
    let (result, attempts, pauses) = drive(MAX_TRIES, || outcomes.next().unwrap());
    assert_eq!(result, Ok(()));
    assert_eq!(attempts, 3);
    assert_eq!(pauses, vec![500, 500]);
}

#[test]
fn a_stub_that_always_fails_exhausts_after_exactly_three_attempts() {
    let mut calls = 0;
    let (result, attempts, pauses) = drive(MAX_TRIES, || {
        calls += 1;
        false
    });
    assert_eq!(result, Err(RetryError::RetriesExhausted));
    assert_eq!(attempts, 3);
    assert_eq!(calls, 3);
    assert_eq!(pauses, vec![500, 500, 500]);
}

#[test]
fn a_first_success_returns_at_once() {
    let (result, attempts, pauses) = drive(MAX_TRIES, || true);
    assert_eq!(result, Ok(()));
    assert_eq!(attempts, 1);
    assert!(pauses.is_empty());
}

#[test]
fn a_budget_of_zero_makes_no_attempt() {
    let (result, attempts, pauses) = drive(0, || true);
    assert_eq!(result, Err(RetryError::RetriesExhausted));
    assert_eq!(attempts, 0);
    assert!(pauses.is_empty());
}

#[test]
fn the_attempts_never_exceed_the_budget() {
    for max in 0..=10u8 {
        for first_success in 0..=12usize {
            let mut n = 0;
            let (result, attempts, pauses) = drive(max, || {
                n += 1;
                n > first_success
            });
            if first_success < max as usize {
                assert_eq!(result, Ok(()));
                assert_eq!(attempts, first_success + 1);
                assert_eq!(pauses.len(), first_success);
            } else {
                assert_eq!(result, Err(RetryError::RetriesExhausted));
                assert_eq!(attempts, max as usize);
                assert_eq!(pauses.len(), max as usize);
            }
        }
    }
}

#[test]
fn the_sender_counts_its_attempts() {
    let mut sender = RetrySender::new(3);
    assert_eq!(sender, RetrySender { max_attempts: 3, attempts: 0, succeeded: false });
    assert_eq!(sender.record(false), Some(RETRY_DELAY_MS));
    assert_eq!(sender, RetrySender { max_attempts: 3, attempts: 1, succeeded: false });
    assert_eq!(sender.record(true), None);
    assert_eq!(sender, RetrySender { max_attempts: 3, attempts: 2, succeeded: true });
    assert_eq!(sender.next_step(), RetryStep::Succeeded);
}

#[test]
fn the_budget_and_the_pause_are_fixed() {
    assert_eq!(MAX_TRIES, 3);
    assert_eq!(RETRY_DELAY_MS, 500);
}
