//! Bounded retry with a fixed delay, as a state machine: the caller performs
//! each attempt and each wait, this module decides what comes next.

use vstd::prelude::*;

verus! {

/// Seconds to wait before the first attempt, so that the broker can come up.
pub const WARMUP_SECS: u64 = 20;

/// Retries granted after the first attempt when a service starts.
pub const STARTUP_RETRIES: usize = 5;

/// Seconds between two attempts when a service starts.
pub const STARTUP_DELAY_SECS: u64 = 5;

/// How often a failed attempt is repeated, and the fixed wait before each
/// repetition.
#[derive(Clone, Copy, Debug, PartialEq, Eq, Structural)]
pub struct RetryPolicy {
    pub max_retries: usize,
    pub delay_secs: u64,
}

/// Where a bounded-retry procedure stands.
#[derive(Clone, Copy, Debug, PartialEq, Eq, Structural)]
pub enum RetryState {
    /// An attempt is due; `failed` attempts came before it.
    Trying { failed: usize },
    /// An attempt succeeded.
    Established,
    /// The attempt after the last granted retry failed.
    Exhausted,
}

/// What the caller does next.
#[derive(Clone, Copy, Debug, PartialEq, Eq, Structural)]
pub enum RetryAction {
    /// Wait `after_secs` seconds, then make an attempt and report its outcome.
    Attempt { after_secs: u64 },
    /// Go on with what the attempt established.
    Proceed,
    /// Stop: the budget is used up.
    GiveUp,
}

/// The state that follows `state` when the attempt that was due has
/// succeeded (`ok`) or failed. A state in which no attempt is due stays.
pub open spec fn next_state(policy: RetryPolicy, state: RetryState, ok: bool) -> RetryState {
    match state {
        RetryState::Trying { failed } => if ok {
            RetryState::Established
        } else if failed < policy.max_retries {
            RetryState::Trying { failed: (failed + 1) as usize }
        } else {
            RetryState::Exhausted
        },
        _ => state,
    }
}

/// The action that leads out of `state`.
pub open spec fn action_in(policy: RetryPolicy, state: RetryState) -> RetryAction {
    match state {
        RetryState::Trying { failed } => RetryAction::Attempt {
            after_secs: if failed == 0 {
                WARMUP_SECS
            } else {
                policy.delay_secs
            },
        },
        RetryState::Established => RetryAction::Proceed,
        RetryState::Exhausted => RetryAction::GiveUp,
    }
}

/// The state reached from `state` once the attempts have had the outcomes
/// `outcomes` in turn, together with the number of attempts made. Outcomes
/// that follow the end of the procedure are not consumed.
pub open spec fn run_from(policy: RetryPolicy, state: RetryState, outcomes: Seq<bool>) -> (
    RetryState,
    nat,
)
    decreases outcomes.len(),
{
    if outcomes.len() == 0 || !(state is Trying) {
        (state, 0)
    } else {
        let rest = run_from(policy, next_state(policy, state, outcomes[0]), outcomes.drop_first());
        (rest.0, rest.1 + 1)
    }
}

/// `k` failures followed by one success.
pub open spec fn fails_then_succeeds(k: nat) -> Seq<bool> {
    Seq::new(k + 1, |i: int| i == k)
}

/// The state in which a procedure starts, and its first action: an attempt
/// after the warm-up delay.
pub fn begin(policy: RetryPolicy) -> (start: (RetryState, RetryAction))
    ensures
        start.0 == (RetryState::Trying { failed: 0 }),
        start.1 == action_in(policy, start.0),
        start.1 == (RetryAction::Attempt { after_secs: WARMUP_SECS }),
{
    (RetryState::Trying { failed: 0 }, RetryAction::Attempt { after_secs: WARMUP_SECS })
}

/// Takes the outcome of the attempt that was due in `state` and returns the
/// next state with the action that leads out of it.
pub fn on_outcome(policy: RetryPolicy, state: RetryState, ok: bool) -> (next: (
    RetryState,
    RetryAction,
))
    ensures
        next.0 == next_state(policy, state, ok),
        next.1 == action_in(policy, next.0),
{
    match state {
        RetryState::Trying { failed } => {
            if ok {
                (RetryState::Established, RetryAction::Proceed)
            } else if failed < policy.max_retries {
                (
                    RetryState::Trying { failed: failed + 1 },
                    RetryAction::Attempt { after_secs: policy.delay_secs },
                )
            } else {
                (RetryState::Exhausted, RetryAction::GiveUp)
            }
        },
        RetryState::Established => (state, RetryAction::Proceed),
        RetryState::Exhausted => (state, RetryAction::GiveUp),
    }
}

/// From a state with `failed` earlier failures, `k` further failures that
/// the budget still covers and then a success establish the connection with
/// `k + 1` attempts.
pub proof fn lemma_success_within_budget_from(policy: RetryPolicy, failed: usize, k: nat)
    requires
        failed + k <= policy.max_retries,
    ensures
        run_from(policy, RetryState::Trying { failed }, fails_then_succeeds(k)) == (
            RetryState::Established,
            k + 1,
        ),
    decreases k,
{
    let outcomes = fails_then_succeeds(k);
    let state = RetryState::Trying { failed };
    if k == 0 {
        assert(outcomes[0]);
        assert(run_from(policy, RetryState::Established, outcomes.drop_first()).1 == 0);
    } else {
        assert(!outcomes[0]);
        assert(outcomes.drop_first() =~= fails_then_succeeds((k - 1) as nat));
        lemma_success_within_budget_from(policy, (failed + 1) as usize, (k - 1) as nat);
    }
}

/// From a state with `failed` earlier failures, attempts that all fail end
/// in `Exhausted` once the last granted retry has failed.
pub proof fn lemma_exhaustion_from(policy: RetryPolicy, failed: usize, outcomes: Seq<bool>)
    requires
        failed <= policy.max_retries,
        outcomes.len() >= policy.max_retries - failed + 1,
        forall|i: int| 0 <= i < outcomes.len() ==> !outcomes[i],
    ensures
        run_from(policy, RetryState::Trying { failed }, outcomes) == (
            RetryState::Exhausted,
            (policy.max_retries - failed + 1) as nat,
        ),
    decreases policy.max_retries - failed,
{
    assert(!outcomes[0]);
    if failed < policy.max_retries {
        lemma_exhaustion_from(policy, (failed + 1) as usize, outcomes.drop_first());
    } else {
        assert(run_from(policy, RetryState::Exhausted, outcomes.drop_first()).1 == 0);
    }
}

/// A broker that fails the first `k` attempts, `k` no more than the retries
/// granted, and then succeeds: the procedure ends established, after `k + 1`
/// attempts, which is within the `max_retries + 1` that the policy allows.
pub proof fn lemma_connects_after_failures(policy: RetryPolicy, k: nat)
    requires
        k <= policy.max_retries,
    ensures
        run_from(policy, RetryState::Trying { failed: 0 }, fails_then_succeeds(k)) == (
            RetryState::Established,
            k + 1,
        ),
        k + 1 <= policy.max_retries + 1,
        k < policy.max_retries ==> k + 1 <= policy.max_retries,
{
    lemma_success_within_budget_from(policy, 0, k);
}

/// A broker that always fails: the procedure ends exhausted after exactly
/// `max_retries + 1` attempts, however many more outcomes were on offer.
pub proof fn lemma_gives_up_after_budget(policy: RetryPolicy, outcomes: Seq<bool>)
    requires
        outcomes.len() > policy.max_retries,
        forall|i: int| 0 <= i < outcomes.len() ==> !outcomes[i],
    ensures
        run_from(policy, RetryState::Trying { failed: 0 }, outcomes) == (
            RetryState::Exhausted,
            (policy.max_retries + 1) as nat,
        ),
{
    lemma_exhaustion_from(policy, 0, outcomes);
}

/// No sequence of outcomes leads to more than `max_retries + 1` attempts
/// from the start, and while attempts are due the failures counted stay
/// within the budget.
pub proof fn lemma_attempts_bounded(policy: RetryPolicy, failed: usize, outcomes: Seq<bool>)
    requires
        failed <= policy.max_retries,
    ensures
        run_from(policy, RetryState::Trying { failed }, outcomes).1 <= policy.max_retries - failed
            + 1,
        match run_from(policy, RetryState::Trying { failed }, outcomes).0 {
            RetryState::Trying { failed: f } => f <= policy.max_retries,
            _ => true,
        },
    decreases outcomes.len(),
{
    if outcomes.len() > 0 {
        let next = next_state(policy, RetryState::Trying { failed }, outcomes[0]);
        match next {
            RetryState::Trying { failed: f } => {
                lemma_attempts_bounded(policy, f, outcomes.drop_first());
            },
            _ => {
                assert(run_from(policy, next, outcomes.drop_first()).1 == 0);
            },
        }
    }
}

} // verus!
