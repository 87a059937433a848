//! Deadline resolution: a scheduling request plus the current instants
//! determine one absolute monotonic deadline.

use chrono::Timelike;
use vstd::prelude::*;

verus! {

/// Seconds in one day of local wall-clock time.
pub const SECONDS_PER_DAY: u32 = 86400;

/// Milliseconds in one day.
pub const MILLIS_PER_DAY: u64 = 86400000;

/// Milliseconds in one minute.
pub const MILLIS_PER_MINUTE: u64 = 60000;

/// A scheduling request: either a countdown of whole minutes, or the next
/// local wall-clock occurrence of an hour and minute.
#[derive(Clone, Copy)]
pub enum ScheduleMode {
    CountdownMinutes(u64),
    SpecificTime { hour: u32, minute: u32 },
}

/// A request is well formed when a countdown is positive and a specific
/// time names a real hour and minute.
pub open spec fn mode_valid(mode: ScheduleMode) -> bool {
    match mode {
        ScheduleMode::CountdownMinutes(minutes) => minutes > 0,
        ScheduleMode::SpecificTime { hour, minute } => hour <= 23 && minute <= 59,
    }
}

/// The deadline computed from a request fits in a 64-bit millisecond count.
pub open spec fn resolve_fits(mode: ScheduleMode, now_millis: u64) -> bool {
    match mode {
        ScheduleMode::CountdownMinutes(minutes) => now_millis + minutes * MILLIS_PER_MINUTE
            <= u64::MAX,
        ScheduleMode::SpecificTime { .. } => now_millis + MILLIS_PER_DAY <= u64::MAX,
    }
}

/// The second of the day named by an hour and minute.
pub open spec fn second_of_day(hour: u32, minute: u32) -> int {
    hour * 3600 + minute * 60
}

/// Seconds until the next occurrence of `hour:minute`, seen from
/// `wall_second` (seconds past the local midnight): today if the named
/// second is still ahead, otherwise the same second tomorrow.
pub open spec fn specific_delta_secs(hour: u32, minute: u32, wall_second: u32) -> int {
    if second_of_day(hour, minute) > wall_second {
        second_of_day(hour, minute) - wall_second
    } else {
        second_of_day(hour, minute) + SECONDS_PER_DAY - wall_second
    }
}

/// The absolute monotonic deadline, in milliseconds, for a request
/// resolved at monotonic instant `now_millis` and wall-clock second
/// `wall_second`.
pub open spec fn spec_resolve(mode: ScheduleMode, now_millis: u64, wall_second: u32) -> int {
    match mode {
        ScheduleMode::CountdownMinutes(minutes) => now_millis + minutes * MILLIS_PER_MINUTE,
        ScheduleMode::SpecificTime { hour, minute } => now_millis + specific_delta_secs(
            hour,
            minute,
            wall_second,
        ) * 1000,
    }
}

/// Resolve a request into an absolute monotonic deadline.
///
/// A countdown lands exactly `minutes` minutes after `now_millis`. A
/// specific time lands strictly after `now_millis` and no more than one
/// day after it.
pub fn resolve(mode: ScheduleMode, now_millis: u64, wall_second: u32) -> (deadline: u64)
    requires
        mode_valid(mode),
        resolve_fits(mode, now_millis),
        wall_second < SECONDS_PER_DAY,
    ensures
        deadline == spec_resolve(mode, now_millis, wall_second),
        mode matches ScheduleMode::CountdownMinutes(minutes) ==> deadline == now_millis + minutes
            * MILLIS_PER_MINUTE,
        mode is SpecificTime ==> now_millis < deadline <= now_millis + MILLIS_PER_DAY,
{
    match mode {
        ScheduleMode::CountdownMinutes(minutes) => now_millis + minutes * MILLIS_PER_MINUTE,
        ScheduleMode::SpecificTime { hour, minute } => {
            let target: u32 = hour * 3600 + minute * 60;
            let delta_secs: u32 = if target > wall_second {
                target - wall_second
            } else {
                target + SECONDS_PER_DAY - wall_second
            };
            now_millis + (delta_secs as u64) * 1000
        },
    }
}

/// Relies on chrono's `Local::now` and `Timelike::num_seconds_from_midnight`:
/// the number of non-leap seconds past the last local midnight, which chrono
/// documents as ranging over 0 to 86399.
#[verifier::external_body]
pub(crate) fn local_second_of_day() -> (wall_second: u32)
    ensures
        wall_second < SECONDS_PER_DAY,
{
    chrono::Local::now().time().num_seconds_from_midnight()
}

/// Resolve a request against the live local clock.
///
/// The wall-clock reading only matters for a specific time, where any
/// reading leaves the deadline strictly in the future and at most one day
/// ahead; a countdown is pinned exactly.
pub fn compute_target_from_mode(mode: ScheduleMode, now_millis: u64) -> (deadline: u64)
    requires
        mode_valid(mode),
        resolve_fits(mode, now_millis),
    ensures
        mode matches ScheduleMode::CountdownMinutes(minutes) ==> deadline == now_millis + minutes
            * MILLIS_PER_MINUTE,
        mode is SpecificTime ==> now_millis < deadline <= now_millis + MILLIS_PER_DAY,
        exists|wall_second: u32|
            wall_second < SECONDS_PER_DAY && deadline == spec_resolve(
                mode,
                now_millis,
                wall_second,
            ),
{
    let wall_second = local_second_of_day();
    resolve(mode, now_millis, wall_second)
}

} // verus!
