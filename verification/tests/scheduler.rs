use carboxyl_window::Scheduler;
use carboxyl_window::SchedulerAction;

#[test]
fn zero_tick_length_is_a_configuration_error() {
    assert!(Scheduler::new(0, 1_000).is_err());
    assert!(Scheduler::new(1, 1_000).is_ok());
}

#[test]
fn waits_before_the_deadline_and_ticks_at_it() {
    let mut sched = Scheduler::new(100, 1_000).unwrap();
    assert_eq!(sched.step(1_000), SchedulerAction::Tick);
    assert_eq!(sched.step(1_050), SchedulerAction::Wait(50));
    assert_eq!(sched.step(1_099), SchedulerAction::Wait(1));
    assert_eq!(sched.step(1_100), SchedulerAction::Tick);
}

#[test]
fn overshoot_is_absorbed_without_compounding() {
    let mut sched = Scheduler::new(100, 1_000).unwrap();
    assert_eq!(sched.step(1_000), SchedulerAction::Tick);
    // Woke 75 ns late for the 1_100 deadline: the next deadline stays on
    // the grid at 1_200 instead of sliding to 1_275.
    assert_eq!(sched.step(1_175), SchedulerAction::Tick);
    assert_eq!(sched.step(1_185), SchedulerAction::Wait(15));
    assert_eq!(sched.step(1_200), SchedulerAction::Tick);
    assert_eq!(sched.step(1_210), SchedulerAction::Wait(90));
}

#[test]
fn a_long_stall_skips_missed_slots_instead_of_catching_up() {
    let mut sched = Scheduler::new(100, 0).unwrap();
    assert_eq!(sched.step(0), SchedulerAction::Tick);
    // Stalled for two and a half tick lengths: exactly one tick fires and
    // the deadline moves to the first grid point after the wake-up.
    assert_eq!(sched.step(350), SchedulerAction::Tick);
    assert_eq!(sched.step(360), SchedulerAction::Wait(40));
    assert_eq!(sched.step(400), SchedulerAction::Tick);
}

#[test]
fn immediate_retry_when_no_time_remains() {
    let mut sched = Scheduler::new(100, 500).unwrap();
    assert_eq!(sched.step(500), SchedulerAction::Tick);
    // Exactly at the new deadline: no wait, the tick fires at once.
    assert_eq!(sched.step(600), SchedulerAction::Tick);
}

#[test]
fn average_tick_period_stays_near_the_tick_length() {
    let tick_length: u64 = 100;
    let jitter: u64 = 9;
    let mut sched = Scheduler::new(tick_length, 0).unwrap();
    let mut now: u64 = 0;
    let mut ticks: u64 = 0;
    let mut first_tick_at: u64 = 0;
    let mut last_tick_at: u64 = 0;
    while ticks < 1_000 {
        match sched.step(now) {
            SchedulerAction::Tick => {
                if ticks == 0 {
                    first_tick_at = now;
                }
                last_tick_at = now;
                ticks += 1;
            }
            SchedulerAction::Wait(ns) => {
                now += ns + jitter;
            }
        }
    }
    let elapsed = last_tick_at - first_tick_at;
    assert!(elapsed >= 999 * tick_length);
    assert!(elapsed <= 999 * (tick_length + jitter));
}
