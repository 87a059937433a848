//! The schedule store and the decisions taken on it: one shared slot
//! holding at most one pending deadline, a generation token that lets a
//! superseded timer loop stand down silently, the four command-surface
//! operations, and the per-cycle decision of the timer loop.

use crate::resolver::{
    MILLIS_PER_DAY, MILLIS_PER_MINUTE, SECONDS_PER_DAY, ScheduleMode, local_second_of_day,
    resolve, resolve_fits, spec_resolve,
};
use vstd::prelude::*;

verus! {

/// The abstract content of the schedule store: the pending deadline if
/// any, the cancellation flag, and the generation of the latest install.
pub ghost struct StoreModel {
    pub target: Option<u64>,
    pub cancelled: bool,
    pub generation: u64,
}

/// The store of a freshly constructed scheduler: idle, with no
/// cancellation pending and no install recorded yet.
pub open spec fn idle_model() -> StoreModel {
    StoreModel { target: None, cancelled: false, generation: 0 }
}

/// The legal store contents: a cancellation can only be pending against
/// an installed deadline.
pub open spec fn store_wf(s: StoreModel) -> bool {
    s.target is None ==> !s.cancelled
}

/// Installing a deadline: it replaces any prior one, clears the
/// cancellation flag, and opens a new generation.
pub open spec fn install_t(s: StoreModel, deadline: u64) -> StoreModel {
    StoreModel {
        target: Some(deadline),
        cancelled: false,
        generation: (s.generation + 1) as u64,
    }
}

/// Requesting cancellation: flags an installed deadline, and is a no-op
/// on an idle store.
pub open spec fn cancel_t(s: StoreModel) -> StoreModel {
    if s.target is Some {
        StoreModel { target: s.target, cancelled: true, generation: s.generation }
    } else {
        s
    }
}

/// Clearing the store: back to idle, keeping the generation so that the
/// loop that cleared it stays distinguishable from a later install.
pub open spec fn clear_t(s: StoreModel) -> StoreModel {
    StoreModel { target: None, cancelled: false, generation: s.generation }
}

/// Whole seconds left until `deadline` seen from `now_millis`, floored,
/// and zero once the deadline has been reached.
pub open spec fn remaining_secs(deadline: u64, now_millis: u64) -> u64 {
    if now_millis >= deadline {
        0u64
    } else {
        ((deadline - now_millis) / 1000) as u64
    }
}

/// What one decision cycle of the timer loop concludes.
///
/// `Stale` means the loop no longer owns the store (its generation was
/// superseded, or nothing is armed) and must exit without emitting a
/// terminal event. `Cancelled` and `Fire` are the two terminal outcomes;
/// `Fire` is where the caller invokes the shutdown executor, exactly once
/// per armed lifecycle. `Tick` reports the remaining whole seconds and
/// whether this is the single warning cycle, after which the loop sleeps
/// one second and decides again.
#[derive(Clone, Copy, Debug, PartialEq, Eq, Structural)]
pub enum StepOutcome {
    Stale,
    Cancelled,
    Fire,
    Tick { remaining: u64, warning: bool },
}

/// One decision cycle over the store model: a loop holding `my_gen`
/// observes the store at monotonic instant `now_millis`.
pub open spec fn step_model(s: StoreModel, my_gen: u64, now_millis: u64) -> (
    StoreModel,
    StepOutcome,
) {
    if my_gen != s.generation {
        (s, StepOutcome::Stale)
    } else if s.cancelled {
        (clear_t(s), StepOutcome::Cancelled)
    } else {
        match s.target {
            None => (s, StepOutcome::Stale),
            Some(deadline) => if now_millis >= deadline {
                (clear_t(s), StepOutcome::Fire)
            } else {
                (
                    s,
                    StepOutcome::Tick {
                        remaining: remaining_secs(deadline, now_millis),
                        warning: remaining_secs(deadline, now_millis) == 60,
                    },
                )
            },
        }
    }
}

/// A consistent one-read copy of the store, taken under exclusive access.
#[derive(Clone, Copy, Debug)]
pub struct Snapshot {
    pub target: Option<u64>,
    pub cancelled: bool,
    pub generation: u64,
}

/// What an accepted arm command hands back: the generation the spawned
/// timer loop must carry, the installed deadline, and the whole seconds
/// remaining at acceptance, for the `scheduled` notification.
#[derive(Clone, Copy, Debug, PartialEq, Eq, Structural)]
pub struct ArmTicket {
    pub generation: u64,
    pub deadline: u64,
    pub seconds_remaining: u64,
}

/// A malformed request, rejected before any state changes.
#[derive(Clone, Copy, Debug, PartialEq, Eq, Structural)]
pub enum SchedulerError {
    InvalidArgument,
}

/// The schedule store. At most one deadline is pending; every mutation
/// goes through the operations below, never through the fields.
pub struct SchedulerState {
    target: Option<u64>,
    cancelled: bool,
    generation: u64,
}

impl View for SchedulerState {
    type V = StoreModel;

    closed spec fn view(&self) -> StoreModel {
        StoreModel {
            target: self.target,
            cancelled: self.cancelled,
            generation: self.generation,
        }
    }
}

impl SchedulerState {
    /// A fresh, idle store.
    pub fn new() -> (s: Self)
        ensures
            s@ == idle_model(),
    {
        SchedulerState { target: None, cancelled: false, generation: 0 }
    }

    /// Install a deadline: overwrite any prior one, clear the
    /// cancellation flag, and return the new generation, which the timer
    /// loop driving this deadline must present on every cycle.
    pub fn install(&mut self, deadline: u64) -> (generation: u64)
        requires
            old(self)@.generation < u64::MAX,
        ensures
            final(self)@ == install_t(old(self)@, deadline),
            generation == final(self)@.generation,
    {
        self.target = Some(deadline);
        self.cancelled = false;
        self.generation = self.generation + 1;
        self.generation
    }

    /// Flag the pending deadline for cancellation; a no-op when idle.
    pub fn request_cancel(&mut self)
        ensures
            final(self)@ == cancel_t(old(self)@),
    {
        if self.target.is_some() {
            self.cancelled = true;
        }
    }

    /// A consistent copy of `(deadline, cancelled, generation)`.
    pub fn snapshot(&self) -> (snap: Snapshot)
        ensures
            snap.target == self@.target,
            snap.cancelled == self@.cancelled,
            snap.generation == self@.generation,
    {
        Snapshot { target: self.target, cancelled: self.cancelled, generation: self.generation }
    }

    /// Reset to idle. Reached only through `step`, by the loop that owns
    /// the current generation.
    fn clear(&mut self)
        ensures
            final(self)@ == clear_t(old(self)@),
    {
        self.target = None;
        self.cancelled = false;
    }

    /// One decision cycle of the timer loop holding generation `my_gen`,
    /// at monotonic instant `now_millis`, exactly as `step_model` says:
    /// a superseded or idle store yields `Stale` and changes nothing; a
    /// flagged cancellation yields `Cancelled` and clears the store; a
    /// reached deadline yields `Fire` and clears the store; otherwise the
    /// cycle ticks, warning exactly when sixty whole seconds remain.
    pub fn step(&mut self, my_gen: u64, now_millis: u64) -> (outcome: StepOutcome)
        ensures
            final(self)@ == step_model(old(self)@, my_gen, now_millis).0,
            outcome == step_model(old(self)@, my_gen, now_millis).1,
    {
        if my_gen != self.generation {
            return StepOutcome::Stale;
        }
        if self.cancelled {
            self.clear();
            return StepOutcome::Cancelled;
        }
        match self.target {
            None => StepOutcome::Stale,
            Some(deadline) => {
                if now_millis >= deadline {
                    self.clear();
                    StepOutcome::Fire
                } else {
                    let remaining: u64 = (deadline - now_millis) / 1000;
                    StepOutcome::Tick { remaining, warning: remaining == 60 }
                }
            },
        }
    }

    /// Arm a countdown of `minutes` whole minutes from `now_millis`.
    /// Rejected exactly when `minutes` is zero, leaving the store
    /// untouched; otherwise the deadline lands exactly `minutes` minutes
    /// ahead and the ticket reports the new generation and the seconds
    /// remaining at acceptance.
    pub fn arm_countdown(&mut self, minutes: u64, now_millis: u64) -> (r: Result<
        ArmTicket,
        SchedulerError,
    >)
        requires
            old(self)@.generation < u64::MAX,
            now_millis + minutes * MILLIS_PER_MINUTE <= u64::MAX,
        ensures
            minutes == 0 ==> r == Err::<ArmTicket, SchedulerError>(SchedulerError::InvalidArgument)
                && final(self)@ == old(self)@,
            minutes > 0 ==> ({
                let deadline = (now_millis + minutes * MILLIS_PER_MINUTE) as u64;
                &&& final(self)@ == install_t(old(self)@, deadline)
                &&& r matches Ok(ticket)
                &&& ticket.generation == final(self)@.generation
                &&& ticket.deadline == deadline
                &&& ticket.seconds_remaining == remaining_secs(deadline, now_millis)
            }),
    {
        if minutes == 0 {
            return Err(SchedulerError::InvalidArgument);
        }
        let deadline = resolve(ScheduleMode::CountdownMinutes(minutes), now_millis, 0);
        let generation = self.install(deadline);
        let seconds_remaining: u64 = (deadline - now_millis) / 1000;
        Ok(ArmTicket { generation, deadline, seconds_remaining })
    }

    /// Arm for the next occurrence of `hour:minute`, resolved against the
    /// wall-clock second `wall_second`. Rejected exactly when the hour or
    /// minute is out of range, leaving the store untouched; otherwise the
    /// deadline is the resolver's, strictly in the future and at most one
    /// day ahead.
    pub fn arm_at(&mut self, hour: u32, minute: u32, now_millis: u64, wall_second: u32) -> (r:
        Result<ArmTicket, SchedulerError>)
        requires
            old(self)@.generation < u64::MAX,
            wall_second < SECONDS_PER_DAY,
            now_millis + MILLIS_PER_DAY <= u64::MAX,
        ensures
            (hour > 23 || minute > 59) ==> r == Err::<ArmTicket, SchedulerError>(
                SchedulerError::InvalidArgument,
            ) && final(self)@ == old(self)@,
            (hour <= 23 && minute <= 59) ==> ({
                let deadline = spec_resolve(
                    ScheduleMode::SpecificTime { hour, minute },
                    now_millis,
                    wall_second,
                );
                &&& now_millis < deadline <= now_millis + MILLIS_PER_DAY
                &&& final(self)@ == install_t(old(self)@, deadline as u64)
                &&& r matches Ok(ticket)
                &&& ticket.generation == final(self)@.generation
                &&& ticket.deadline == deadline
                &&& ticket.seconds_remaining == remaining_secs(deadline as u64, now_millis)
            }),
    {
        if hour > 23 || minute > 59 {
            return Err(SchedulerError::InvalidArgument);
        }
        let deadline = resolve(
            ScheduleMode::SpecificTime { hour, minute },
            now_millis,
            wall_second,
        );
        let generation = self.install(deadline);
        let seconds_remaining: u64 = (deadline - now_millis) / 1000;
        Ok(ArmTicket { generation, deadline, seconds_remaining })
    }

    /// Arm for the next occurrence of `hour:minute` against the live
    /// local clock. Validation and the shape of the ticket are those of
    /// `arm_at`; the deadline depends on the clock reading, but every
    /// reading leaves it strictly in the future and at most one day
    /// ahead.
    pub fn arm_at_local(&mut self, hour: u32, minute: u32, now_millis: u64) -> (r: Result<
        ArmTicket,
        SchedulerError,
    >)
        requires
            old(self)@.generation < u64::MAX,
            now_millis + MILLIS_PER_DAY <= u64::MAX,
        ensures
            (hour > 23 || minute > 59) ==> r == Err::<ArmTicket, SchedulerError>(
                SchedulerError::InvalidArgument,
            ) && final(self)@ == old(self)@,
            (hour <= 23 && minute <= 59) ==> ({
                &&& r matches Ok(ticket)
                &&& now_millis < ticket.deadline <= now_millis + MILLIS_PER_DAY
                &&& final(self)@ == install_t(old(self)@, ticket.deadline)
                &&& ticket.generation == final(self)@.generation
                &&& ticket.seconds_remaining == remaining_secs(ticket.deadline, now_millis)
                &&& exists|wall_second: u32|
                    wall_second < SECONDS_PER_DAY && ticket.deadline == spec_resolve(
                        ScheduleMode::SpecificTime { hour, minute },
                        now_millis,
                        wall_second,
                    )
            }),
    {
        if hour > 23 || minute > 59 {
            return Err(SchedulerError::InvalidArgument);
        }
        let wall_second = local_second_of_day();
        self.arm_at(hour, minute, now_millis, wall_second)
    }

    /// Flag the pending schedule for cancellation. Always succeeds; a
    /// no-op when nothing is armed. The owning timer loop observes the
    /// flag on its next decision cycle.
    pub fn cancel(&mut self)
        ensures
            final(self)@ == cancel_t(old(self)@),
    {
        self.request_cancel();
    }

    /// The whole seconds remaining, computed fresh from the live
    /// deadline: `Some` exactly when a deadline is installed, `None` on
    /// an idle store.
    pub fn remaining(&self, now_millis: u64) -> (r: Option<u64>)
        ensures
            r is Some <==> self@.target is Some,
            self@.target matches Some(deadline) ==> r == Some(remaining_secs(deadline, now_millis)),
    {
        match self.target {
            None => None,
            Some(deadline) => Some(
                if now_millis >= deadline {
                    0
                } else {
                    (deadline - now_millis) / 1000
                },
            ),
        }
    }
}

/// An explicitly owned scheduler store, handed to the command surface and
/// to each timer loop by whoever runs them.
pub fn scheduler() -> (s: SchedulerState)
    ensures
        s@ == idle_model(),
{
    SchedulerState::new()
}

} // verus!
