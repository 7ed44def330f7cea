use mindfulness_bell::aligned::{
    aligned_wait_after, aligned_wait_fits_after, aligned_wait_fits_at, aligned_wait_from_clock,
    clock_times_fit_every_minute, seconds_until_aligned_trigger_at,
    seconds_until_next_aligned_trigger,
};
use mindfulness_bell::schedule::{
    scheduler_step, SchedulerAction, SchedulerObservation, SchedulerPhase,
};
use mindfulness_bell::settings::BellSettings;

fn quarter_hours() -> Vec<i32> {
    vec![30, 0, 45, 15]
}

#[test]
fn aligned_wait_goes_to_next_quarter() {
    assert_eq!(seconds_until_aligned_trigger_at(&quarter_hours(), 10, 30), 270);
    assert_eq!(seconds_until_aligned_trigger_at(&quarter_hours(), 0, 1), 899);
    assert_eq!(seconds_until_aligned_trigger_at(&quarter_hours(), 44, 59), 1);
}

#[test]
fn aligned_wait_wraps_into_next_hour() {
    assert_eq!(seconds_until_aligned_trigger_at(&quarter_hours(), 45, 1), 899);
    assert_eq!(seconds_until_aligned_trigger_at(&quarter_hours(), 59, 59), 1);
    assert_eq!(seconds_until_aligned_trigger_at(&[10], 10, 30), 3570);
    assert_eq!(seconds_until_aligned_trigger_at(&[10], 50, 0), 1200);
}

#[test]
fn aligned_wait_on_the_first_second_is_one_second() {
    assert_eq!(seconds_until_aligned_trigger_at(&quarter_hours(), 15, 0), 1);
    assert_eq!(seconds_until_aligned_trigger_at(&[0], 0, 0), 1);
}

#[test]
fn aligned_wait_without_times_is_an_hour() {
    assert_eq!(seconds_until_aligned_trigger_at(&[], 12, 34), 3600);
    assert_eq!(seconds_until_next_aligned_trigger(&[]), 3600);
}

#[test]
fn aligned_wait_from_the_clock_is_within_an_hour() {
    let w = seconds_until_next_aligned_trigger(&quarter_hours());
    assert!(w >= 1 && w <= 900);
    let every_minute: Vec<i32> = (0..60).collect();
    let w = seconds_until_next_aligned_trigger(&every_minute);
    assert!(w >= 1 && w <= 60);
}

#[test]
fn aligned_wait_with_minutes_outside_the_hour() {
    // a configured minute past the hour is reached as a later minute
    assert_eq!(seconds_until_aligned_trigger_at(&[90], 10, 0), 4800);
    // a negative first minute can make the raw wait negative: one second
    assert_eq!(seconds_until_aligned_trigger_at(&[-100], 10, 0), 1);
}

#[test]
fn aligned_wait_fit_checks() {
    assert!(aligned_wait_fits_at(&quarter_hours(), 10, 0));
    assert!(clock_times_fit_every_minute(&quarter_hours()));
    assert!(clock_times_fit_every_minute(&[]));
    assert!(!aligned_wait_fits_at(&[i32::MAX], 10, 0));
    assert!(!clock_times_fit_every_minute(&[i32::MAX]));
    assert!(!clock_times_fit_every_minute(&[i32::MIN]));
    // 35791394 minutes ahead still fits in 32 bits of seconds at minute 0
    assert!(aligned_wait_fits_at(&[35791394], 0, 0));
    assert!(!aligned_wait_fits_at(&[35791395], 0, 0));
}

fn settings_with(mode: &str, interval: i32, times: Vec<i32>) -> BellSettings {
    let mut s = BellSettings::default();
    s.timing_mode = mode.to_string();
    s.interval_minutes = interval;
    s.clock_times = times;
    s
}

const CHECKING: SchedulerPhase = SchedulerPhase::Checking { last_rung: None };

fn obs(is_current: bool, bell_enabled: bool, deadline_passed: bool) -> SchedulerObservation {
    SchedulerObservation { is_current, bell_enabled, deadline_passed }
}

fn step(
    phase: SchedulerPhase,
    o: &SchedulerObservation,
    s: Option<&BellSettings>,
) -> (SchedulerPhase, SchedulerAction) {
    let (next, action, reading) = scheduler_step(phase, o, s);
    if let Some((m, sec)) = reading {
        assert!(m < 60 && sec < 60);
    }
    (next, action)
}

fn deadline_of(s: &BellSettings) -> u64 {
    match step(CHECKING, &obs(true, true, false), Some(s)) {
        (SchedulerPhase::Sleeping { .. }, SchedulerAction::SetDeadline { seconds }) => seconds,
        other => panic!("no deadline: {:?}", other),
    }
}

#[test]
fn fixed_interval_wait() {
    let s = settings_with("fixed-interval", 30, vec![]);
    assert_eq!(deadline_of(&s), 1800);
    assert_eq!(
        step(CHECKING, &obs(true, true, false), Some(&s)),
        (SchedulerPhase::Sleeping { aim: None }, SchedulerAction::SetDeadline { seconds: 1800 })
    );
    let s = settings_with("fixed-interval", 0, vec![]);
    assert_eq!(deadline_of(&s), 0);
    let s = settings_with("fixed-interval", -1, vec![]);
    assert_eq!(deadline_of(&s), u64::MAX - 59);
    let s = settings_with("fixed-interval", i32::MAX, vec![]);
    assert_eq!(
        step(CHECKING, &obs(true, true, false), Some(&s)),
        (SchedulerPhase::Stopped, SchedulerAction::WaitOverflows)
    );
    let s = settings_with("fixed-interval", i32::MAX / 60, vec![]);
    assert_eq!(deadline_of(&s), (i32::MAX / 60 * 60) as u64);
}

#[test]
fn clock_aligned_wait_that_overflows_stops() {
    let s = settings_with("clock-aligned", 15, vec![i32::MAX]);
    assert_eq!(
        step(CHECKING, &obs(true, true, false), Some(&s)),
        (SchedulerPhase::Stopped, SchedulerAction::WaitOverflows)
    );
    let (_, _, reading) = scheduler_step(CHECKING, &obs(true, true, false), Some(&s));
    assert!(reading.is_some());
}

#[test]
fn step_reports_the_clock_reading_it_used() {
    let s = settings_with("clock-aligned", 15, quarter_hours());
    match scheduler_step(CHECKING, &obs(true, true, false), Some(&s)) {
        (SchedulerPhase::Sleeping { aim: Some(aim) }, SchedulerAction::SetDeadline { seconds }, Some((m, sec))) => {
            assert_eq!(aligned_wait_after(&quarter_hours(), m, sec, None), (seconds, aim));
        }
        other => panic!("no clock-aligned deadline: {:?}", other),
    }
    let f = settings_with("fixed-interval", 15, vec![]);
    let (_, _, reading) = scheduler_step(CHECKING, &obs(true, true, false), Some(&f));
    assert_eq!(reading, None);
}

#[test]
fn fits_after_a_bell() {
    assert!(aligned_wait_fits_after(&quarter_hours(), 15, 0, Some(15)));
    assert!(!aligned_wait_fits_after(&[i32::MAX], 15, 0, Some(15)));
}

#[test]
fn aligned_wait_counts_down() {
    let times = quarter_hours();
    let mut prev = seconds_until_aligned_trigger_at(&times, 13, 58);
    assert_eq!(prev, 62);
    for (m, s) in [(13, 59), (14, 0), (14, 1)] {
        let w = seconds_until_aligned_trigger_at(&times, m, s);
        if prev >= 2 {
            assert_eq!(w, prev - 1);
        }
        prev = w;
    }
    assert_eq!(seconds_until_aligned_trigger_at(&[10], 59, 59), 601);
    assert_eq!(seconds_until_aligned_trigger_at(&[10], 0, 0), 600);
}

#[test]
fn aligned_wait_ignores_order_and_repetition() {
    let a = vec![45, 0, 15, 30];
    let b = vec![0, 0, 30, 15, 45, 15];
    for m in 0..60 {
        for s in [0, 1, 30, 59] {
            assert_eq!(
                seconds_until_aligned_trigger_at(&a, m, s),
                seconds_until_aligned_trigger_at(&b, m, s)
            );
            assert_eq!(aligned_wait_after(&a, m, s, Some(15)), aligned_wait_after(&b, m, s, Some(15)));
        }
    }
}

#[test]
fn clock_aligned_mode_uses_clock_times() {
    let s = settings_with("clock-aligned", 30, vec![0, 15, 30, 45]);
    match step(CHECKING, &obs(true, true, false), Some(&s)) {
        (SchedulerPhase::Sleeping { aim: Some(aim) }, SchedulerAction::SetDeadline { seconds }) => {
            assert!([0, 15, 30, 45].contains(&aim));
            assert!(seconds >= 1 && seconds <= 900);
        }
        other => panic!("no deadline: {:?}", other),
    }
}

#[test]
fn clock_aligned_without_minutes_never_sets_a_deadline() {
    let s = settings_with("clock-aligned", 30, vec![]);
    assert_eq!(
        step(CHECKING, &obs(true, true, false), Some(&s)),
        (CHECKING, SchedulerAction::SleepOneSecond)
    );
    let mut phase = CHECKING;
    for k in 0..100 {
        let (next, action) = step(phase, &obs(true, true, k % 2 == 0), Some(&s));
        assert_ne!(action, SchedulerAction::RingBell);
        phase = next;
    }
}

#[test]
fn after_a_bell_the_same_minute_is_not_rung_again() {
    // at 15:00 with the bell for :15 just rung, the next bell is :30
    assert_eq!(aligned_wait_after(&quarter_hours(), 15, 0, Some(15)), (900, 30));
    // without that bell, the wait is one second
    assert_eq!(aligned_wait_after(&quarter_hours(), 15, 0, None), (1, 15));
    // after the :45 bell the next one is :00 of the next hour
    assert_eq!(aligned_wait_after(&quarter_hours(), 45, 0, Some(45)), (900, 0));
    assert_eq!(aligned_wait_after(&[20], 20, 0, Some(20)), (3600, 20));
    // a later second of the minute is unaffected
    assert_eq!(aligned_wait_after(&quarter_hours(), 15, 1, Some(15)), (899, 30));
}

#[test]
fn clock_wait_reports_its_reading() {
    let w = aligned_wait_from_clock(&quarter_hours(), None);
    assert!(w.minute < 60 && w.second < 60);
    assert_eq!(w.seconds, seconds_until_aligned_trigger_at(&quarter_hours(), w.minute, w.second));
    assert!([0, 15, 30, 45].contains(&w.target));
}

#[test]
fn scheduler_checking_step() {
    let s = settings_with("fixed-interval", 15, vec![]);
    assert_eq!(
        step(CHECKING, &obs(false, true, false), Some(&s)),
        (SchedulerPhase::Stopped, SchedulerAction::Exit)
    );
    assert_eq!(
        step(
            SchedulerPhase::Checking { last_rung: Some(15) },
            &obs(true, false, false),
            Some(&s)
        ),
        (CHECKING, SchedulerAction::SleepOneSecond)
    );
    assert_eq!(
        step(
            SchedulerPhase::Checking { last_rung: Some(15) },
            &obs(true, true, false),
            None
        ),
        (SchedulerPhase::Checking { last_rung: Some(15) }, SchedulerAction::SettingsUnavailable)
    );
    assert_eq!(
        step(CHECKING, &obs(true, true, false), Some(&s)),
        (SchedulerPhase::Sleeping { aim: None }, SchedulerAction::SetDeadline { seconds: 900 })
    );
}

#[test]
fn scheduler_sleeping_step() {
    let sleeping = SchedulerPhase::Sleeping { aim: Some(30) };
    let confirming = SchedulerPhase::Confirming { aim: Some(30) };
    assert_eq!(
        step(sleeping, &obs(false, true, true), None),
        (confirming, SchedulerAction::Continue)
    );
    assert_eq!(
        step(sleeping, &obs(false, true, false), None),
        (SchedulerPhase::Stopped, SchedulerAction::Exit)
    );
    assert_eq!(
        step(sleeping, &obs(true, false, false), None),
        (confirming, SchedulerAction::Continue)
    );
    assert_eq!(
        step(sleeping, &obs(true, true, false), None),
        (sleeping, SchedulerAction::SleepOneSecond)
    );
}

#[test]
fn scheduler_confirming_and_stopped_steps() {
    let confirming = SchedulerPhase::Confirming { aim: Some(30) };
    assert_eq!(
        step(confirming, &obs(false, true, true), None),
        (SchedulerPhase::Stopped, SchedulerAction::Exit)
    );
    assert_eq!(
        step(confirming, &obs(true, false, true), None),
        (CHECKING, SchedulerAction::Continue)
    );
    assert_eq!(
        step(confirming, &obs(true, true, true), None),
        (SchedulerPhase::Checking { last_rung: Some(30) }, SchedulerAction::RingBell)
    );
    assert_eq!(
        step(SchedulerPhase::Stopped, &obs(true, true, true), None),
        (SchedulerPhase::Stopped, SchedulerAction::Exit)
    );
}

fn all_phases() -> [SchedulerPhase; 4] {
    [
        CHECKING,
        SchedulerPhase::Sleeping { aim: None },
        SchedulerPhase::Confirming { aim: Some(0) },
        SchedulerPhase::Stopped,
    ]
}

#[test]
fn superseded_scheduler_stops_within_two_steps() {
    let stale = obs(false, true, true);
    for phase in all_phases() {
        let (p1, _) = step(phase, &stale, None);
        let (p2, _) = step(p1, &stale, None);
        assert!(p1 == SchedulerPhase::Stopped || p2 == SchedulerPhase::Stopped);
    }
}

#[test]
fn scheduler_full_cycle_rings_once() {
    let s = settings_with("fixed-interval", 1, vec![]);
    let (p, a) = step(CHECKING, &obs(true, true, false), Some(&s));
    assert_eq!(a, SchedulerAction::SetDeadline { seconds: 60 });
    let (p, a) = step(p, &obs(true, true, false), None);
    assert_eq!(a, SchedulerAction::SleepOneSecond);
    let (p, a) = step(p, &obs(true, true, true), None);
    assert_eq!(a, SchedulerAction::Continue);
    let (p, a) = step(p, &obs(true, true, true), None);
    assert_eq!(a, SchedulerAction::RingBell);
    assert_eq!(p, CHECKING);
}

#[test]
fn disabled_bell_never_rings() {
    let s = settings_with("fixed-interval", 1, vec![]);
    for phase in all_phases() {
        for current in [false, true] {
            for passed in [false, true] {
                let (_, a) = step(phase, &obs(current, false, passed), Some(&s));
                assert_ne!(a, SchedulerAction::RingBell);
            }
        }
    }
}
