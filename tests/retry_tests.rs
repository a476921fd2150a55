use bonelab_mod_manager::retry::{FailureClass, RetryDecision, RetryState};

#[test]
fn three_rate_limits_then_success_sleeps_zero_one_three() {
    let mut state = RetryState::new();
    let mut sleeps = Vec::new();
    let outcomes = [false, false, false, true];
    let mut attempts = 0;
    for ok in outcomes {
        attempts += 1;
        if ok {
            break;
        }
        match state.on_failure(FailureClass::RateLimited) {
            RetryDecision::SleepThenRetry(d) => sleeps.push(d),
            RetryDecision::GiveUp => panic!("gave up on a rate limit"),
        }
    }
    assert_eq!(attempts, 4);
    assert_eq!(sleeps, vec![0, 1, 3]);
    assert_eq!(state.failures, 3);
    assert_eq!(state.delay, 7);
    assert_eq!(state.last, Some(FailureClass::RateLimited));
}

#[test]
fn terminal_failure_gives_up_without_sleeping() {
    let mut state = RetryState::new();
    assert_eq!(state.on_failure(FailureClass::RateLimited), RetryDecision::SleepThenRetry(0));
    assert_eq!(state.on_failure(FailureClass::Terminal), RetryDecision::GiveUp);
    assert_eq!(state.delay, 1);
    assert_eq!(state.failures, 2);
    assert_eq!(state.last, Some(FailureClass::Terminal));
}

#[test]
fn delays_follow_the_doubling_sequence() {
    let mut state = RetryState::new();
    let mut sleeps = Vec::new();
    for _ in 0..6 {
        if let RetryDecision::SleepThenRetry(d) = state.on_failure(FailureClass::RateLimited) {
            sleeps.push(d);
        }
    }
    assert_eq!(sleeps, vec![0, 1, 3, 7, 15, 31]);
}

#[test]
fn delay_holds_at_the_largest_value() {
    let mut state = RetryState { failures: u64::MAX, delay: u64::MAX / 2 + 1, last: None };
    assert_eq!(
        state.on_failure(FailureClass::RateLimited),
        RetryDecision::SleepThenRetry(u64::MAX / 2 + 1)
    );
    assert_eq!(state.delay, u64::MAX);
    assert_eq!(state.failures, u64::MAX);
}
