//! The general guarantees of the scheduling engine, proved over the
//! store model and the decision-cycle function of `scheduler`.

use crate::scheduler::{
    StepOutcome, StoreModel, cancel_t, install_t, remaining_secs, step_model,
};
use vstd::arithmetic::div_mod::{
    lemma_div_is_ordered, lemma_fundamental_div_mod, lemma_fundamental_div_mod_converse_div,
};
use vstd::prelude::*;

verus! {

/// Remaining time never increases as time advances, is zero once the
/// deadline is reached, and strictly decreases across observations at
/// least one second apart while it is still positive.
pub proof fn lemma_remaining_monotone(deadline: u64, n1: u64, n2: u64)
    requires
        n1 <= n2,
    ensures
        remaining_secs(deadline, n2) <= remaining_secs(deadline, n1),
        deadline <= n2 ==> remaining_secs(deadline, n2) == 0,
        n1 + 1000 <= n2 && remaining_secs(deadline, n1) > 0 ==> remaining_secs(deadline, n2)
            < remaining_secs(deadline, n1),
{
    if n2 < deadline {
        lemma_div_is_ordered(deadline - n2, deadline - n1, 1000);
        if n1 + 1000 <= n2 {
            let a1 = deadline - n1;
            let a2 = deadline - n2;
            lemma_fundamental_div_mod(a1, 1000);
            lemma_fundamental_div_mod_converse_div(
                a1 - 1000,
                1000,
                a1 / 1000 - 1,
                a1 % 1000,
            );
            lemma_div_is_ordered(a2, a1 - 1000, 1000);
        }
    } else if n1 < deadline {
        if remaining_secs(deadline, n1) > 0 {
            assert(remaining_secs(deadline, n2) == 0);
        }
    }
}

/// The warning fires on at most one decision cycle per armed lifecycle:
/// once an observation finds exactly sixty whole seconds remaining,
/// every observation at least one second later finds fewer.
pub proof fn lemma_warning_at_most_once(deadline: u64, n1: u64, n2: u64)
    requires
        n1 + 1000 <= n2,
        remaining_secs(deadline, n1) == 60,
    ensures
        remaining_secs(deadline, n2) < 60,
{
    lemma_remaining_monotone(deadline, n1, n2);
}

/// The warning is never skipped for a schedule of at least sixty-one
/// seconds resolved at integer-second alignment: on the one-second
/// cadence starting at `start` there is a cycle, before the deadline,
/// that finds exactly sixty whole seconds remaining.
pub proof fn lemma_warning_not_skipped(deadline: u64, start: u64) -> (k: u64)
    requires
        start + 61000 <= deadline,
        (deadline - start) % 1000 == 0,
    ensures
        start + k * 1000 < deadline,
        remaining_secs(deadline, (start + k * 1000) as u64) == 60,
{
    let gap = deadline - start;
    lemma_fundamental_div_mod(gap, 1000);
    let q = gap / 1000;
    assert(gap == 1000 * q);
    assert(q >= 61) by {
        if q < 61 {
            assert(gap <= 1000 * 60);
        }
    }
    let k = (q - 60) as u64;
    assert(start + k * 1000 == deadline - 60000);
    lemma_fundamental_div_mod_converse_div(60000, 1000, 60, 0);
    k
}

/// Arming and then cancelling before the first decision cycle: that
/// cycle observes the cancellation, never fires, and returns the store
/// to idle.
pub proof fn lemma_cancel_before_first_cycle(s0: StoreModel, deadline: u64, now_millis: u64)
    ensures
        ({
            let armed = install_t(s0, deadline);
            let requested = cancel_t(armed);
            let cycle = step_model(requested, armed.generation, now_millis);
            &&& cycle.1 == StepOutcome::Cancelled
            &&& cycle.1 != StepOutcome::Fire
            &&& cycle.0.target is None
            &&& !cycle.0.cancelled
        }),
{
}

/// A deadline already reached when the first decision cycle runs fires
/// on that cycle, and the same loop can never fire a second time: the
/// next cycle under the same generation finds the store idle and stands
/// down.
pub proof fn lemma_past_deadline_fires_once(s0: StoreModel, deadline: u64, n1: u64, n2: u64)
    requires
        deadline <= n1,
    ensures
        ({
            let armed = install_t(s0, deadline);
            let first = step_model(armed, armed.generation, n1);
            let second = step_model(first.0, armed.generation, n2);
            &&& first.1 == StepOutcome::Fire
            &&& first.0.target is None
            &&& second.1 == StepOutcome::Stale
            &&& second.1 != StepOutcome::Fire
        }),
{
}

/// A new install supersedes the running loop: a cycle presenting the
/// superseded generation stands down silently and leaves the store as it
/// found it.
pub proof fn lemma_superseded_loop_is_stale(
    s: StoreModel,
    new_deadline: u64,
    now_millis: u64,
)
    requires
        s.generation < u64::MAX,
    ensures
        ({
            let replaced = install_t(s, new_deadline);
            let cycle = step_model(replaced, s.generation, now_millis);
            &&& cycle.1 == StepOutcome::Stale
            &&& cycle.0 == replaced
        }),
{
}

} // verus!
