//! The bell scheduler: a loop that waits for the next bell, in clock-aligned
//! or in fixed-interval mode, and rings it, written as a step function from
//! what the scheduler sees to its next phase and what to do.

use vstd::prelude::*;

use crate::aligned::{
    aligned_target, aligned_wait_after, aligned_wait_fits, aligned_wait_fits_after,
    aligned_wait_seconds, lemma_fits_after_a_bell, lemma_minutes_of_hour_fit, minutes_of_hour,
    opt_int, raw_wait_seconds, is_upcoming,
    lemma_aligned_wait_lands_on_configured_minute, lemma_aligned_wait_skips_no_configured_minute,
    lemma_earliest_upcoming_is_least, earliest_time, earliest_upcoming, lemma_earliest_time_is_least,
};
use crate::clock::local_minute_and_second;
use crate::settings::{BellSettings, BellSettingsView, clock_aligned_mode, clock_aligned_mode_text};

verus! {

/// Seconds between bells in fixed-interval mode: the interval in minutes
/// times sixty, taken as an unsigned 64-bit count (a negative product wraps).
pub open spec fn fixed_interval_seconds(interval_minutes: i32) -> u64 {
    (interval_minutes * 60) as u64
}

/// In fixed-interval mode a bell rings every `interval_minutes` minutes.
pub proof fn lemma_fixed_interval_is_whole_minutes(interval_minutes: i32)
    requires
        0 <= interval_minutes * 60 <= i32::MAX,
    ensures
        fixed_interval_seconds(interval_minutes) == interval_minutes * 60,
{
}

/// In fixed-interval mode the wait is computed in 32-bit arithmetic; it
/// holds when the interval in seconds fits.
pub open spec fn fixed_interval_fits(interval_minutes: i32) -> bool {
    i32::MIN <= interval_minutes * 60 <= i32::MAX
}

/// Where a bell scheduler stands in its loop.
#[derive(PartialEq, Eq, Structural, Clone, Copy, Debug)]
pub enum SchedulerPhase {
    /// At the top of the loop: about to check that it is still the live
    /// scheduler and that the bell is on, then to read the settings and set
    /// the next deadline. `last_rung` is the configured minute whose bell
    /// has just rung, if any.
    Checking { last_rung: Option<i32> },
    /// Sleeping towards the deadline, one second at a time; `aim` is the
    /// configured minute the deadline goes to (clock-aligned mode).
    Sleeping { aim: Option<i32> },
    /// The sleep is over: about to check again before ringing.
    Confirming { aim: Option<i32> },
    /// Superseded by a newer scheduler; it does nothing more.
    Stopped,
}

/// What the scheduler sees at a step.
#[derive(PartialEq, Eq, Structural, Clone, Copy, Debug)]
pub struct SchedulerObservation {
    /// No newer scheduler has been started since this one.
    pub is_current: bool,
    /// The bell is enabled in the settings.
    pub bell_enabled: bool,
    /// The deadline set by the last `SetDeadline` has been reached.
    pub deadline_passed: bool,
}

/// What the scheduler asks its runner to do after a step.
#[derive(PartialEq, Eq, Structural, Clone, Copy, Debug)]
pub enum SchedulerAction {
    /// Leave the loop for good.
    Exit,
    /// Sleep one second, then step again.
    SleepOneSecond,
    /// The settings could not be read: report it, sleep one second, step again.
    SettingsUnavailable,
    /// Set the deadline this many seconds from now, then step again.
    SetDeadline { seconds: u64 },
    /// Ring the bell, then step again.
    RingBell,
    /// Step again at once.
    Continue,
    /// The wait to set does not fit in 32-bit arithmetic: the scheduler
    /// cannot go on.
    WaitOverflows,
}

/// The settings ask for bells at configured minutes of the hour.
pub open spec fn is_clock_aligned(s: BellSettingsView) -> bool {
    s.timing_mode == clock_aligned_mode()
}

/// One step of the scheduler loop, the local clock reading `minute:second`
/// past the hour when the step reads it.
///
/// In clock-aligned mode the deadline goes to the next configured minute
/// (not the one whose bell has just rung), and with no configured minute
/// there is nothing to ring for: the scheduler looks again a second later.
/// In fixed-interval mode the deadline is the interval. A wait that does not
/// fit in 32-bit arithmetic ends the scheduler.
pub open spec fn scheduler_next(
    phase: SchedulerPhase,
    obs: SchedulerObservation,
    settings: Option<BellSettingsView>,
    minute: int,
    second: int,
) -> (SchedulerPhase, SchedulerAction) {
    match phase {
        SchedulerPhase::Checking { last_rung } => if !obs.is_current {
            (SchedulerPhase::Stopped, SchedulerAction::Exit)
        } else if !obs.bell_enabled {
            (SchedulerPhase::Checking { last_rung: None }, SchedulerAction::SleepOneSecond)
        } else {
            match settings {
                None => (SchedulerPhase::Checking { last_rung }, SchedulerAction::SettingsUnavailable),
                Some(s) => if is_clock_aligned(s) {
                    if s.clock_times.len() == 0 {
                        (SchedulerPhase::Checking { last_rung: None }, SchedulerAction::SleepOneSecond)
                    } else if !aligned_wait_fits(s.clock_times, minute, second, opt_int(last_rung)) {
                        (SchedulerPhase::Stopped, SchedulerAction::WaitOverflows)
                    } else {
                        (
                            SchedulerPhase::Sleeping {
                                aim: Some(
                                    aligned_target(s.clock_times, minute, second, opt_int(last_rung))
                                        as i32,
                                ),
                            },
                            SchedulerAction::SetDeadline {
                                seconds: aligned_wait_seconds(
                                    s.clock_times,
                                    minute,
                                    second,
                                    opt_int(last_rung),
                                ) as u64,
                            },
                        )
                    }
                } else if !fixed_interval_fits(s.interval_minutes) {
                    (SchedulerPhase::Stopped, SchedulerAction::WaitOverflows)
                } else {
                    (
                        SchedulerPhase::Sleeping { aim: None },
                        SchedulerAction::SetDeadline {
                            seconds: fixed_interval_seconds(s.interval_minutes),
                        },
                    )
                },
            }
        },
        SchedulerPhase::Sleeping { aim } => if obs.deadline_passed {
            (SchedulerPhase::Confirming { aim }, SchedulerAction::Continue)
        } else if !obs.is_current {
            (SchedulerPhase::Stopped, SchedulerAction::Exit)
        } else if !obs.bell_enabled {
            (SchedulerPhase::Confirming { aim }, SchedulerAction::Continue)
        } else {
            (SchedulerPhase::Sleeping { aim }, SchedulerAction::SleepOneSecond)
        },
        SchedulerPhase::Confirming { aim } => if !obs.is_current {
            (SchedulerPhase::Stopped, SchedulerAction::Exit)
        } else if !obs.bell_enabled {
            (SchedulerPhase::Checking { last_rung: None }, SchedulerAction::Continue)
        } else {
            (SchedulerPhase::Checking { last_rung: aim }, SchedulerAction::RingBell)
        },
        SchedulerPhase::Stopped => (SchedulerPhase::Stopped, SchedulerAction::Exit),
    }
}

pub open spec fn settings_view(settings: Option<&BellSettings>) -> Option<BellSettingsView> {
    match settings {
        Some(s) => Some(s@),
        None => None,
    }
}

/// One step of the bell scheduler: from its phase, what it observes and the
/// settings (`None` when they could not be read), its next phase, what to do,
/// and the reading of the local clock (minute, second) when the step read it
/// to set a clock-aligned deadline. A step that does not read the clock is the
/// same for every reading.
pub fn scheduler_step(
    phase: SchedulerPhase,
    obs: &SchedulerObservation,
    settings: Option<&BellSettings>,
) -> (res: (SchedulerPhase, SchedulerAction, Option<(u32, u32)>))
    ensures
        match res.2 {
            Some((minute, second)) => minute < 60 && second < 60 && (res.0, res.1)
                == scheduler_next(
                phase,
                *obs,
                settings_view(settings),
                minute as int,
                second as int,
            ),
            None => forall|minute: int, second: int|
                (res.0, res.1) == #[trigger] scheduler_next(
                    phase,
                    *obs,
                    settings_view(settings),
                    minute,
                    second,
                ),
        },
{
    let ghost sv = settings_view(settings);
    match phase {
        SchedulerPhase::Checking { last_rung } => {
            if !obs.is_current {
                (SchedulerPhase::Stopped, SchedulerAction::Exit, None)
            } else if !obs.bell_enabled {
                (SchedulerPhase::Checking { last_rung: None }, SchedulerAction::SleepOneSecond, None)
            } else {
                match settings {
                    None => (
                        SchedulerPhase::Checking { last_rung },
                        SchedulerAction::SettingsUnavailable,
                        None,
                    ),
                    Some(s) => {
                        if s.timing_mode == clock_aligned_mode_text() {
                            if s.clock_times.len() == 0 {
                                (
                                    SchedulerPhase::Checking { last_rung: None },
                                    SchedulerAction::SleepOneSecond,
                                    None,
                                )
                            } else {
                                let (minute, second) = local_minute_and_second();
                                let times = s.clock_times.as_slice();
                                if !aligned_wait_fits_after(times, minute, second, last_rung) {
                                    (
                                        SchedulerPhase::Stopped,
                                        SchedulerAction::WaitOverflows,
                                        Some((minute, second)),
                                    )
                                } else {
                                    let (seconds, target) = aligned_wait_after(
                                        times,
                                        minute,
                                        second,
                                        last_rung,
                                    );
                                    (
                                        SchedulerPhase::Sleeping { aim: Some(target) },
                                        SchedulerAction::SetDeadline { seconds },
                                        Some((minute, second)),
                                    )
                                }
                            }
                        } else {
                            let scaled: i64 = (s.interval_minutes as i64) * 60;
                            if scaled < i32::MIN as i64 || scaled > i32::MAX as i64 {
                                (SchedulerPhase::Stopped, SchedulerAction::WaitOverflows, None)
                            } else {
                                (
                                    SchedulerPhase::Sleeping { aim: None },
                                    SchedulerAction::SetDeadline {
                                        seconds: (s.interval_minutes * 60) as u64,
                                    },
                                    None,
                                )
                            }
                        }
                    },
                }
            }
        },
        SchedulerPhase::Sleeping { aim } => {
            if obs.deadline_passed {
                (SchedulerPhase::Confirming { aim }, SchedulerAction::Continue, None)
            } else if !obs.is_current {
                (SchedulerPhase::Stopped, SchedulerAction::Exit, None)
            } else if !obs.bell_enabled {
                (SchedulerPhase::Confirming { aim }, SchedulerAction::Continue, None)
            } else {
                (SchedulerPhase::Sleeping { aim }, SchedulerAction::SleepOneSecond, None)
            }
        },
        SchedulerPhase::Confirming { aim } => {
            if !obs.is_current {
                (SchedulerPhase::Stopped, SchedulerAction::Exit, None)
            } else if !obs.bell_enabled {
                (SchedulerPhase::Checking { last_rung: None }, SchedulerAction::Continue, None)
            } else {
                (SchedulerPhase::Checking { last_rung: aim }, SchedulerAction::RingBell, None)
            }
        },
        SchedulerPhase::Stopped => (SchedulerPhase::Stopped, SchedulerAction::Exit, None),
    }
}

/// The bell rings only from the confirming phase, and only when the
/// scheduler is still the live one and the bell is enabled.
pub proof fn lemma_rings_only_when_current_and_enabled(
    phase: SchedulerPhase,
    obs: SchedulerObservation,
    settings: Option<BellSettingsView>,
    minute: int,
    second: int,
)
    ensures
        scheduler_next(phase, obs, settings, minute, second).1 == SchedulerAction::RingBell ==> {
            &&& phase is Confirming
            &&& obs.is_current
            &&& obs.bell_enabled
        },
{
}

/// A stopped scheduler stays stopped and only exits; and a step leads to the
/// stopped phase exactly when it exits or its wait overflows.
pub proof fn lemma_stopped_is_final(
    phase: SchedulerPhase,
    obs: SchedulerObservation,
    settings: Option<BellSettingsView>,
    minute: int,
    second: int,
)
    ensures
        scheduler_next(SchedulerPhase::Stopped, obs, settings, minute, second) == (
            SchedulerPhase::Stopped,
            SchedulerAction::Exit,
        ),
        (scheduler_next(phase, obs, settings, minute, second).1 == SchedulerAction::Exit
            || scheduler_next(phase, obs, settings, minute, second).1
            == SchedulerAction::WaitOverflows) <==> (scheduler_next(
            phase,
            obs,
            settings,
            minute,
            second,
        ).0 == SchedulerPhase::Stopped),
{
}

/// A superseded scheduler stops within two steps, whatever its phase.
pub proof fn lemma_superseded_scheduler_stops(
    phase: SchedulerPhase,
    first: SchedulerObservation,
    second: SchedulerObservation,
    settings: Option<BellSettingsView>,
    minute1: int,
    second1: int,
    minute2: int,
    second2: int,
)
    requires
        !first.is_current,
        !second.is_current,
    ensures
        ({
            let p1 = scheduler_next(phase, first, settings, minute1, second1).0;
            let p2 = scheduler_next(p1, second, settings, minute2, second2).0;
            p1 == SchedulerPhase::Stopped || p2 == SchedulerPhase::Stopped
        }),
{
}

/// Sleeping is entered only by setting a deadline, and the confirming phase
/// (the only one that rings) is entered only from sleeping: every bell comes
/// after a deadline was set.
pub proof fn lemma_bell_follows_a_deadline(
    phase: SchedulerPhase,
    obs: SchedulerObservation,
    settings: Option<BellSettingsView>,
    minute: int,
    second: int,
)
    ensures
        ({
            let (next, action) = scheduler_next(phase, obs, settings, minute, second);
            &&& next is Sleeping ==> (phase is Sleeping || action is SetDeadline)
            &&& next is Confirming ==> phase is Sleeping
        }),
{
}

/// One bell per configured time: right after the bell of configured minute
/// `t` has rung (with every configured minute a minute of the hour), a
/// reading of the clock still within minute `t` sets the next deadline
/// exactly at the start of another configured minute (later this hour, or
/// in the next hour), which the scheduler then aims at, and no configured
/// minute starts in between. The bell is not rung again for `t`.
pub proof fn lemma_one_bell_per_configured_time(
    t: i32,
    obs: SchedulerObservation,
    s: BellSettingsView,
    second: int,
)
    requires
        obs.is_current,
        obs.bell_enabled,
        is_clock_aligned(s),
        minutes_of_hour(s.clock_times),
        s.clock_times.len() > 0,
        0 <= t < 60,
        0 <= second < 60,
    ensures
        ({
            let (next, action) = scheduler_next(
                SchedulerPhase::Checking { last_rung: Some(t) },
                obs,
                Some(s),
                t as int,
                second,
            );
            let now = t * 60 + second;
            &&& action matches SchedulerAction::SetDeadline { seconds } && {
                let target = now + seconds;
                &&& seconds >= 1
                &&& exists|i: int|
                    0 <= i < s.clock_times.len() && next == SchedulerPhase::Sleeping {
                        aim: Some(#[trigger] s.clock_times[i]),
                    } && ((target == s.clock_times[i] * 60 && s.clock_times[i] > t) || target
                        == 3600 + s.clock_times[i] * 60)
                &&& forall|i: int|
                    0 <= i < s.clock_times.len() ==> {
                        &&& !(now < #[trigger] s.clock_times[i] * 60 < target)
                        &&& !(now < 3600 + s.clock_times[i] * 60 < target)
                    }
            }
        }),
{
    let times = s.clock_times;
    let rung = Some(t as int);
    lemma_minutes_of_hour_fit(times);
    lemma_fits_after_a_bell(times, t as int, second, rung);
    lemma_earliest_upcoming_is_least(times, t as int, second, rung);
    assert(raw_wait_seconds(times, t as int, second, rung) > 0) by {
        lemma_earliest_time_is_least(times);
        let k = choose|k: int| 0 <= k < times.len() && #[trigger] times[k]
            == earliest_time(times);
        assert(0 <= times[k] < 60);
    }
    lemma_aligned_wait_lands_on_configured_minute(times, t as int, second, rung);
    lemma_aligned_wait_skips_no_configured_minute(times, t as int, second, rung);
    lemma_earliest_time_is_least(times);
    let wait = aligned_wait_seconds(times, t as int, second, rung);
    let target = t * 60 + second + wait;
    let aim = aligned_target(times, t as int, second, rung);
    assert(opt_int(Some(t)) == rung);
    if earliest_upcoming(times, t as int, second, rung) is Some {
        let n = earliest_upcoming(times, t as int, second, rung)->0;
        let j = choose|j: int| 0 <= j < times.len() && #[trigger] times[j] == n;
        assert(0 <= times[j] < 60);
        assert(is_upcoming(n, t as int, second, rung));
        assert(n > t);
        assert(target == times[j] * 60);
        assert(aim == times[j]);
    } else {
        let i = choose|i: int| 0 <= i < times.len() && #[trigger] times[i]
            == earliest_time(times);
        assert(0 <= times[i] < 60);
        assert(target == 3600 + times[i] * 60);
        assert(aim == times[i]);
    }
}

/// The actions of a scheduler run from `phase`, the `k`-th step seeing
/// `obs[k]` and the clock reading `readings[k]` (minute, second), with
/// unchanging settings.
pub open spec fn scheduler_run(
    phase: SchedulerPhase,
    obs: Seq<SchedulerObservation>,
    readings: Seq<(int, int)>,
    settings: Option<BellSettingsView>,
) -> Seq<SchedulerAction>
    decreases obs.len(),
{
    if obs.len() == 0 {
        Seq::empty()
    } else {
        let (next, action) = scheduler_next(phase, obs[0], settings, readings[0].0, readings[0].1);
        seq![action] + scheduler_run(next, obs.drop_first(), readings.drop_first(), settings)
    }
}

/// In clock-aligned mode with no configured minute the bell never rings:
/// a scheduler that starts at the top of its loop (or is stopped) never rings,
/// however long it runs and whatever it observes.
pub proof fn lemma_no_configured_minute_never_rings(
    phase: SchedulerPhase,
    obs: Seq<SchedulerObservation>,
    readings: Seq<(int, int)>,
    s: BellSettingsView,
)
    requires
        phase is Checking || phase is Stopped,
        readings.len() >= obs.len(),
        is_clock_aligned(s),
        s.clock_times.len() == 0,
    ensures
        scheduler_run(phase, obs, readings, Some(s)).len() == obs.len(),
        forall|k: int|
            0 <= k < obs.len() ==> #[trigger] scheduler_run(phase, obs, readings, Some(s))[k]
                != SchedulerAction::RingBell,
    decreases obs.len(),
{
    if obs.len() > 0 {
        let (next, action) = scheduler_next(phase, obs[0], Some(s), readings[0].0, readings[0].1);
        assert(next is Checking || next is Stopped);
        lemma_no_configured_minute_never_rings(next, obs.drop_first(), readings.drop_first(), s);
        let run = scheduler_run(phase, obs, readings, Some(s));
        let rest = scheduler_run(next, obs.drop_first(), readings.drop_first(), Some(s));
        assert(run == seq![action] + rest);
        assert forall|k: int| 0 <= k < obs.len() implies #[trigger] run[k]
            != SchedulerAction::RingBell by {
            if k > 0 {
                assert((seq![action] + rest)[k] == rest[k - 1]);
            }
        }
    }
}


/// While the bell is off the scheduler never rings; at the top of its loop it
/// sleeps a second and forgets the last bell, so that once the bell is on
/// again the next deadline is computed afresh.
pub proof fn lemma_disabled_never_rings(
    phase: SchedulerPhase,
    obs: SchedulerObservation,
    settings: Option<BellSettingsView>,
    minute: int,
    second: int,
)
    requires
        !obs.bell_enabled,
    ensures
        scheduler_next(phase, obs, settings, minute, second).1 != SchedulerAction::RingBell,
        (phase is Checking && obs.is_current) ==> scheduler_next(
            phase,
            obs,
            settings,
            minute,
            second,
        ) == (SchedulerPhase::Checking { last_rung: None }, SchedulerAction::SleepOneSecond),
{
}

/// Settings as documented: clock-aligned with every configured minute a
/// minute of the hour, or a fixed interval of at least one minute whose
/// seconds fit in 32 bits.
pub open spec fn documented_schedule(s: BellSettingsView) -> bool {
    if is_clock_aligned(s) {
        minutes_of_hour(s.clock_times)
    } else {
        1 <= s.interval_minutes && s.interval_minutes * 60 <= i32::MAX
    }
}

/// With settings as documented the wait never overflows and every deadline
/// is at least a second; in fixed-interval mode it is exactly the interval,
/// so bells are at least that far apart.
pub proof fn lemma_documented_schedule_deadlines(
    last_rung: Option<i32>,
    obs: SchedulerObservation,
    s: BellSettingsView,
    minute: int,
    second: int,
)
    requires
        documented_schedule(s),
        0 <= minute < 60,
        0 <= second < 60,
    ensures
        ({
            let (next, action) = scheduler_next(
                SchedulerPhase::Checking { last_rung },
                obs,
                Some(s),
                minute,
                second,
            );
            &&& action != SchedulerAction::WaitOverflows
            &&& action matches SchedulerAction::SetDeadline { seconds } ==> {
                &&& seconds >= 1
                &&& !is_clock_aligned(s) ==> seconds == s.interval_minutes * 60
            }
        }),
{
    if is_clock_aligned(s) {
        lemma_minutes_of_hour_fit(s.clock_times);
        lemma_fits_after_a_bell(s.clock_times, minute, second, opt_int(last_rung));
    }
}

} // verus!
