//! The retry policy of a segment fetch: a bounded number of attempts with a
//! fixed pause between them.

use vstd::prelude::*;

verus! {

/// The pause between two attempts, in milliseconds.
pub const RETRY_DELAY_MS: u64 = 2000;

/// What follows an attempt to fetch a segment.
#[derive(Debug, Clone, Copy, PartialEq, Eq, Structural)]
pub enum AttemptAction {
    /// The attempt succeeded: the body is used.
    Done,
    /// The attempt failed and another is allowed: pause, then try again.
    WaitAndRetry,
    /// The attempt failed and it was the last one allowed.
    GiveUp,
}

pub open spec fn attempt_action(attempt: nat, max_attempts: nat, succeeded: bool) -> AttemptAction {
    if succeeded {
        AttemptAction::Done
    } else if attempt < max_attempts {
        AttemptAction::WaitAndRetry
    } else {
        AttemptAction::GiveUp
    }
}

/// The action after attempt number `attempt` (counted from one) of at most
/// `max_attempts`.
pub fn after_attempt(attempt: u32, max_attempts: u32, succeeded: bool) -> (r: AttemptAction)
    requires
        1 <= attempt <= max_attempts,
    ensures
        r == attempt_action(attempt as nat, max_attempts as nat, succeeded),
{
    if succeeded {
        AttemptAction::Done
    } else if attempt < max_attempts {
        AttemptAction::WaitAndRetry
    } else {
        AttemptAction::GiveUp
    }
}

/// Where a fetch ends when attempt `k` (counted from one) succeeds exactly when
/// `outcomes[k - 1]` holds, going on from attempt `attempt`: the number of the
/// attempt that succeeded, or `None` when the attempts ran out.
pub open spec fn fetch_outcome(max_attempts: nat, outcomes: Seq<bool>, attempt: nat) -> Option<nat>
    decreases max_attempts + 1 - attempt,
{
    if attempt < 1 || attempt > max_attempts || attempt > outcomes.len() {
        None
    } else {
        match attempt_action(attempt, max_attempts, outcomes[attempt - 1]) {
            AttemptAction::Done => Some(attempt),
            AttemptAction::WaitAndRetry => fetch_outcome(max_attempts, outcomes, attempt + 1),
            AttemptAction::GiveUp => None,
        }
    }
}

/// `failures` failed attempts followed by one that succeeds.
pub open spec fn fails_then_succeeds(failures: nat) -> Seq<bool> {
    Seq::new(failures, |i: int| false).push(true)
}

proof fn lemma_fetch_from(max_attempts: nat, failures: nat, attempt: nat)
    requires
        1 <= attempt <= max_attempts,
        attempt <= failures + 1,
    ensures
        fetch_outcome(max_attempts, fails_then_succeeds(failures), attempt) == if failures
            < max_attempts {
            Some(failures + 1)
        } else {
            None::<nat>
        },
    decreases max_attempts - attempt,
{
    let o = fails_then_succeeds(failures);
    if attempt <= failures {
        assert(o[attempt - 1] == false);
        if attempt < max_attempts {
            lemma_fetch_from(max_attempts, failures, attempt + 1);
        }
    } else {
        assert(o[attempt - 1] == true);
    }
}

/// A segment whose first `failures` attempts fail and whose next one succeeds
/// is fetched, by that attempt, exactly when `failures < max_attempts`;
/// otherwise its attempts run out.
pub proof fn lemma_retry_budget(max_attempts: nat, failures: nat)
    requires
        max_attempts >= 1,
    ensures
        failures < max_attempts ==> fetch_outcome(max_attempts, fails_then_succeeds(failures), 1)
            == Some(failures + 1),
        failures >= max_attempts ==> fetch_outcome(
            max_attempts,
            fails_then_succeeds(failures),
            1,
        ) is None,
{
    lemma_fetch_from(max_attempts, failures, 1);
}

} // verus!
