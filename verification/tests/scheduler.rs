use chrono::Timelike;
use clock_app_lib::resolver::{compute_target_from_mode, resolve, ScheduleMode};
use clock_app_lib::scheduler::{scheduler, SchedulerError, SchedulerState, StepOutcome};

#[test]
fn countdown_computes_correct_target() {
    let start: u64 = 0;
    let target = compute_target_from_mode(ScheduleMode::CountdownMinutes(2), start);
    let delta = (target - start) / 1000;
    assert!(delta >= 120);
    assert!(delta < 125);
}

#[test]
fn specific_time_in_future_or_tomorrow() {
    let now = chrono::Local::now();
    let hour = now.hour();
    let minute = (now.minute() + 1) % 60;
    let now_mono: u64 = 10_000;
    let target =
        compute_target_from_mode(ScheduleMode::SpecificTime { hour, minute }, now_mono);
    assert!(target > now_mono);
}

#[test]
fn countdown_resolves_exactly() {
    let d = resolve(ScheduleMode::CountdownMinutes(5), 1_000, 0);
    assert_eq!(d, 1_000 + 5 * 60_000);
    let d2 = resolve(ScheduleMode::CountdownMinutes(1), 0, 86_399);
    assert_eq!(d2, 60_000);
}

#[test]
fn specific_time_resolves_today_when_still_ahead() {
    // 10:30 seen from 10:00:00 is half an hour ahead.
    let d = resolve(ScheduleMode::SpecificTime { hour: 10, minute: 30 }, 0, 10 * 3600);
    assert_eq!(d, 1_800_000);
}

#[test]
fn specific_time_resolves_tomorrow_when_passed() {
    // 00:00 seen from 00:00:01 is a second into the past: tomorrow.
    let d = resolve(ScheduleMode::SpecificTime { hour: 0, minute: 0 }, 0, 1);
    assert_eq!(d, 86_399_000);
    // The named second itself counts as passed: a full day ahead.
    let d2 = resolve(ScheduleMode::SpecificTime { hour: 1, minute: 0 }, 5, 3600);
    assert_eq!(d2, 5 + 86_400_000);
}

#[test]
fn specific_time_stays_within_one_day() {
    for hour in [0u32, 7, 23] {
        for minute in [0u32, 30, 59] {
            for wall in [0u32, 43_200, 86_399] {
                let now: u64 = 777;
                let d = resolve(ScheduleMode::SpecificTime { hour, minute }, now, wall);
                assert!(d > now);
                assert!(d <= now + 86_400_000);
            }
        }
    }
}

#[test]
fn arm_countdown_rejects_zero_minutes() {
    let mut s = scheduler();
    let r = s.arm_countdown(0, 0);
    assert!(matches!(r, Err(SchedulerError::InvalidArgument)));
    assert_eq!(s.remaining(0), None);
}

#[test]
fn arm_at_rejects_out_of_range_time() {
    let mut s = scheduler();
    assert!(matches!(s.arm_at(24, 0, 0, 0), Err(SchedulerError::InvalidArgument)));
    assert!(matches!(s.arm_at(12, 60, 0, 0), Err(SchedulerError::InvalidArgument)));
    assert!(matches!(s.arm_at_local(24, 0, 0), Err(SchedulerError::InvalidArgument)));
    assert_eq!(s.remaining(0), None);
}

#[test]
fn arm_at_installs_resolved_deadline() {
    let mut s = scheduler();
    let ticket = s.arm_at(10, 30, 2_000, 10 * 3600).unwrap();
    assert_eq!(ticket.deadline, 2_000 + 1_800_000);
    assert_eq!(ticket.seconds_remaining, 1_800);
    assert_eq!(ticket.generation, 1);
    assert_eq!(s.remaining(2_000), Some(1_800));
}

#[test]
fn arm_at_local_lands_within_one_day() {
    let mut s = scheduler();
    let now: u64 = 5_000;
    let ticket = s.arm_at_local(23, 59, now).unwrap();
    assert!(ticket.deadline > now);
    assert!(ticket.deadline <= now + 86_400_000);
    assert_eq!(s.remaining(now), Some(ticket.seconds_remaining));
}

#[test]
fn cancel_before_first_cycle_terminates_without_firing() {
    let mut s = scheduler();
    let ticket = s.arm_countdown(2, 1_000).unwrap();
    s.cancel();
    let outcome = s.step(ticket.generation, 1_500);
    assert_eq!(outcome, StepOutcome::Cancelled);
    assert_ne!(outcome, StepOutcome::Fire);
    assert_eq!(s.remaining(1_500), None);
}

#[test]
fn cancel_on_idle_store_is_a_no_op() {
    let mut s = scheduler();
    s.cancel();
    assert_eq!(s.remaining(0), None);
    // A later arm still proceeds normally: the stale flag does not linger.
    let ticket = s.arm_countdown(1, 0).unwrap();
    assert_eq!(s.step(ticket.generation, 0), StepOutcome::Tick { remaining: 60, warning: true });
}

#[test]
fn past_deadline_fires_on_first_cycle_exactly_once() {
    let mut s = SchedulerState::new();
    let generation = s.install(500);
    let first = s.step(generation, 1_000);
    assert_eq!(first, StepOutcome::Fire);
    assert_eq!(s.remaining(1_000), None);
    let second = s.step(generation, 2_000);
    assert_eq!(second, StepOutcome::Stale);
}

#[test]
fn remaining_is_none_when_idle_and_decreases_to_zero_when_armed() {
    let mut s = scheduler();
    assert_eq!(s.remaining(0), None);
    let ticket = s.arm_countdown(1, 0).unwrap();
    assert_eq!(ticket.seconds_remaining, 60);
    let mut previous: u64 = u64::MAX;
    for cycle in 0u64..=60 {
        let now = cycle * 1_000;
        let current = s.remaining(now).unwrap();
        assert!(current < previous);
        previous = current;
    }
    assert_eq!(s.remaining(60_000), Some(0));
    assert_eq!(s.remaining(90_000), Some(0));
}

#[test]
fn one_minute_lifecycle_emits_one_warning_then_fires() {
    let mut s = scheduler();
    let ticket = s.arm_countdown(1, 0).unwrap();
    assert_eq!(ticket.seconds_remaining, 60);

    let mut warnings: u32 = 0;
    let mut executions: u32 = 0;
    let mut ticks: Vec<u64> = Vec::new();
    let mut now: u64 = 0;
    loop {
        match s.step(ticket.generation, now) {
            StepOutcome::Tick { remaining, warning } => {
                if warning {
                    warnings += 1;
                    assert_eq!(remaining, 60);
                }
                ticks.push(remaining);
            }
            StepOutcome::Fire => {
                executions += 1;
                break;
            }
            StepOutcome::Cancelled | StepOutcome::Stale => unreachable!(),
        }
        now += 1_000;
    }

    assert_eq!(warnings, 1);
    assert_eq!(executions, 1);
    let expected: Vec<u64> = (1..=60).rev().collect();
    assert_eq!(ticks, expected);
    // No further cycle of this loop ticks or fires again.
    assert_eq!(s.step(ticket.generation, now + 1_000), StepOutcome::Stale);
}

#[test]
fn longer_schedule_warns_exactly_at_sixty_seconds() {
    let mut s = scheduler();
    let ticket = s.arm_countdown(2, 0).unwrap();
    let mut warning_cycles: Vec<u64> = Vec::new();
    let mut now: u64 = 0;
    loop {
        match s.step(ticket.generation, now) {
            StepOutcome::Tick { remaining, warning } => {
                if warning {
                    warning_cycles.push(remaining);
                }
            }
            StepOutcome::Fire => break,
            StepOutcome::Cancelled | StepOutcome::Stale => unreachable!(),
        }
        now += 1_000;
    }
    assert_eq!(warning_cycles, vec![60]);
}

#[test]
fn new_schedule_supersedes_running_loop() {
    let mut s = scheduler();
    let first = s.arm_countdown(1, 0).unwrap();
    let second = s.arm_countdown(3, 1_000).unwrap();
    assert_ne!(first.generation, second.generation);
    // The superseded loop stands down silently and changes nothing.
    assert_eq!(s.step(first.generation, 1_000), StepOutcome::Stale);
    // The store answers for the newest schedule.
    assert_eq!(s.remaining(1_000), Some(180));
    assert_eq!(
        s.step(second.generation, 1_000),
        StepOutcome::Tick { remaining: 180, warning: false }
    );
}

#[test]
fn snapshot_reports_installed_state() {
    let mut s = scheduler();
    let before = s.snapshot();
    assert_eq!(before.target, None);
    assert!(!before.cancelled);
    let ticket = s.arm_countdown(1, 0).unwrap();
    s.cancel();
    let after = s.snapshot();
    assert_eq!(after.target, Some(ticket.deadline));
    assert!(after.cancelled);
    assert_eq!(after.generation, ticket.generation);
}
