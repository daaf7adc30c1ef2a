use message_facade::retry::{
    begin, on_outcome, RetryAction, RetryPolicy, RetryState, STARTUP_DELAY_SECS, STARTUP_RETRIES,
    WARMUP_SECS,
};

/// Runs the procedure against a broker that fails `fail_first` attempts and
/// then succeeds; returns the final state, the attempts made and the waits.
fn run(policy: RetryPolicy, fail_first: usize) -> (RetryState, usize, Vec<u64>) {
    let (mut state, mut action) = begin(policy);
    let mut attempts: usize = 0;
    let mut waits: Vec<u64> = Vec::new();
    loop {
        match action {
            RetryAction::Attempt { after_secs } => {
                waits.push(after_secs);
                let ok = attempts >= fail_first;
                attempts += 1;
                let next = on_outcome(policy, state, ok);
                state = next.0;
                action = next.1;
            }
            RetryAction::Proceed | RetryAction::GiveUp => return (state, attempts, waits),
        }
    }
}

#[test]
fn startup_constants() {
    assert_eq!(WARMUP_SECS, 20u64);
    assert_eq!(STARTUP_RETRIES, 5usize);
    assert_eq!(STARTUP_DELAY_SECS, 5u64);
}

#[test]
fn begin_asks_for_an_attempt_after_the_warmup() {
    let policy = RetryPolicy { max_retries: 5, delay_secs: 5 };
    let (state, action) = begin(policy);
    assert_eq!(state, RetryState::Trying { failed: 0 });
    assert_eq!(action, RetryAction::Attempt { after_secs: 20 });
}

#[test]
fn immediate_success_takes_one_attempt() {
    let policy = RetryPolicy { max_retries: 5, delay_secs: 5 };
    let (state, attempts, waits) = run(policy, 0);
    assert_eq!(state, RetryState::Established);
    assert_eq!(attempts, 1usize);
    assert_eq!(waits, vec![20u64]);
}

#[test]
fn connects_after_k_failures_within_budget() {
    let policy = RetryPolicy { max_retries: 5, delay_secs: 7 };
    for k in 0usize..5 {
        let (state, attempts, waits) = run(policy, k);
        assert_eq!(state, RetryState::Established);
        assert_eq!(attempts, k + 1);
        assert!(attempts <= 6);
        assert_eq!(waits.len(), k + 1);
        assert_eq!(waits[0], 20u64);
        for w in waits.iter().skip(1) {
            assert_eq!(*w, 7u64);
        }
    }
}

#[test]
fn success_on_the_last_granted_retry_still_connects() {
    let policy = RetryPolicy { max_retries: 5, delay_secs: 5 };
    let (state, attempts, _) = run(policy, 5);
    assert_eq!(state, RetryState::Established);
    assert_eq!(attempts, 6usize);
}

#[test]
fn always_failing_broker_gives_up_after_max_retries_plus_one() {
    let policy = RetryPolicy { max_retries: 5, delay_secs: 5 };
    let (state, attempts, waits) = run(policy, usize::MAX);
    assert_eq!(state, RetryState::Exhausted);
    assert_eq!(attempts, 6usize);
    assert_eq!(waits, vec![20u64, 5, 5, 5, 5, 5]);
}

#[test]
fn zero_retries_gives_up_after_one_attempt() {
    let policy = RetryPolicy { max_retries: 0, delay_secs: 5 };
    let (state, attempts, _) = run(policy, usize::MAX);
    assert_eq!(state, RetryState::Exhausted);
    assert_eq!(attempts, 1usize);
}

#[test]
fn failure_below_budget_retries_with_fixed_delay() {
    let policy = RetryPolicy { max_retries: 3, delay_secs: 9 };
    let next = on_outcome(policy, RetryState::Trying { failed: 2 }, false);
    assert_eq!(next.0, RetryState::Trying { failed: 3 });
    assert_eq!(next.1, RetryAction::Attempt { after_secs: 9 });
    let last = on_outcome(policy, next.0, false);
    assert_eq!(last.0, RetryState::Exhausted);
    assert_eq!(last.1, RetryAction::GiveUp);
}

#[test]
fn finished_states_absorb_further_outcomes() {
    let policy = RetryPolicy { max_retries: 3, delay_secs: 9 };
    assert_eq!(
        on_outcome(policy, RetryState::Established, false),
        (RetryState::Established, RetryAction::Proceed)
    );
    assert_eq!(
        on_outcome(policy, RetryState::Exhausted, true),
        (RetryState::Exhausted, RetryAction::GiveUp)
    );
}
