//! When the next clock-aligned bell is due: at the configured minutes of
//! each hour.

use vstd::prelude::*;

use crate::clock::local_minute_and_second;

verus! {

/// A configured minute `m` is still ahead at `minute:second` of the hour:
/// later in the hour, or this very minute while its first second lasts,
/// unless `rung` says that this minute's bell has just rung.
pub open spec fn is_upcoming(m: int, minute: int, second: int, rung: Option<int>) -> bool {
    m > minute || (m == minute && second == 0 && rung != Some(m))
}

/// The least configured minute that is still ahead, if any.
pub open spec fn earliest_upcoming(
    times: Seq<i32>,
    minute: int,
    second: int,
    rung: Option<int>,
) -> Option<int>
    decreases times.len(),
{
    if times.len() == 0 {
        None
    } else {
        let rest = earliest_upcoming(times.drop_last(), minute, second, rung);
        let t = times.last() as int;
        if is_upcoming(t, minute, second, rung) {
            if rest is Some && rest->0 <= t {
                rest
            } else {
                Some(t)
            }
        } else {
            rest
        }
    }
}

/// The least configured minute (meaningful for a non-empty list).
pub open spec fn earliest_time(times: Seq<i32>) -> int
    decreases times.len(),
{
    if times.len() <= 1 {
        times[0] as int
    } else {
        let rest = earliest_time(times.drop_last());
        if (times.last() as int) < rest {
            times.last() as int
        } else {
            rest
        }
    }
}

/// The configured minute that the next bell goes to: the earliest one still
/// ahead, or else the earliest one of the next hour.
pub open spec fn aligned_target(times: Seq<i32>, minute: int, second: int, rung: Option<int>) -> int {
    match earliest_upcoming(times, minute, second, rung) {
        Some(n) => n,
        None => earliest_time(times),
    }
}

/// Whole minutes to wait, and whether the wait runs into the next hour.
pub open spec fn minutes_and_wrap(times: Seq<i32>, minute: int, second: int, rung: Option<int>) -> (
    int,
    bool,
) {
    match earliest_upcoming(times, minute, second, rung) {
        Some(n) => if n > minute {
            (n - minute, false)
        } else {
            (0, false)
        },
        None => (60 - minute + earliest_time(times), true),
    }
}

/// Seconds to wait before the clamp to at least one second.
pub open spec fn raw_wait_seconds(times: Seq<i32>, minute: int, second: int, rung: Option<int>) -> int {
    let (mins, wrap) = minutes_and_wrap(times, minute, second, rung);
    if wrap || mins > 0 {
        mins * 60 - second
    } else {
        0
    }
}

/// Seconds until the next clock-aligned bell at `minute:second` of the hour:
/// an hour when no minute is configured, otherwise the wait until the earliest
/// configured minute still ahead (or the earliest one in the next hour), and
/// never less than one second.
pub open spec fn aligned_wait_seconds(times: Seq<i32>, minute: int, second: int, rung: Option<int>) -> int {
    if times.len() == 0 {
        3600
    } else {
        let raw = raw_wait_seconds(times, minute, second, rung);
        if raw <= 0 {
            1
        } else {
            raw
        }
    }
}

/// The wait is computed in 32-bit arithmetic; it holds when every
/// intermediate quantity of that computation fits.
pub open spec fn aligned_wait_fits(times: Seq<i32>, minute: int, second: int, rung: Option<int>) -> bool {
    times.len() == 0 || {
        let (mins, wrap) = minutes_and_wrap(times, minute, second, rung);
        (wrap || mins > 0) ==> (mins * 60 <= i32::MAX && mins * 60 - second >= i32::MIN)
    }
}

/// The 32-bit computation fits whatever the minute and second of the hour.
pub open spec fn aligned_wait_fits_every_minute(times: Seq<i32>) -> bool {
    forall|minute: int, second: int|
        0 <= minute < 60 && 0 <= second < 60 ==> #[trigger] aligned_wait_fits(
            times,
            minute,
            second,
            None,
        )
}

pub open spec fn opt_int(o: Option<i32>) -> Option<int> {
    match o {
        Some(v) => Some(v as int),
        None => None,
    }
}

/// The wait in minutes, whether it wraps into the next hour, and the
/// configured minute it goes to, computed in one pass over the configured
/// minutes.
fn minutes_and_wrap_at(clock_times: &[i32], minute: u32, second: u32, rung: Option<i32>) -> (res: (
    i64,
    bool,
    i32,
))
    requires
        minute < 60,
        second < 60,
        clock_times@.len() > 0,
    ensures
        res.0 as int == minutes_and_wrap(clock_times@, minute as int, second as int, opt_int(rung)).0,
        res.1 == minutes_and_wrap(clock_times@, minute as int, second as int, opt_int(rung)).1,
        res.2 as int == aligned_target(clock_times@, minute as int, second as int, opt_int(rung)),
{
    let ghost times = clock_times@;
    let ghost r = opt_int(rung);
    let cm: i32 = minute as i32;
    let cs: i32 = second as i32;
    let mut next: Option<i32> = None;
    let mut first: i32 = clock_times[0];
    let mut i: usize = 0;
    while i < clock_times.len()
        invariant
            0 <= i <= clock_times@.len(),
            times == clock_times@,
            times.len() > 0,
            cm == minute,
            cs == second,
            r == opt_int(rung),
            earliest_upcoming(times.take(i as int), cm as int, cs as int, r) == opt_int(next),
            i == 0 ==> first == times[0],
            i > 0 ==> first as int == earliest_time(times.take(i as int)),
        decreases clock_times@.len() - i,
    {
        let t = clock_times[i];
        assert(times.take(i + 1).drop_last() =~= times.take(i as int));
        assert(times.take(i + 1).last() == t);
        let just_rung = match rung {
            Some(v) => v == t,
            None => false,
        };
        if t > cm || (t == cm && cs == 0 && !just_rung) {
            match next {
                Some(n) => {
                    if !(n <= t) {
                        next = Some(t);
                    }
                },
                None => {
                    next = Some(t);
                },
            }
        }
        if i == 0 {
            assert(times.take(1) =~= seq![t]);
        }
        if t < first {
            first = t;
        }
        i = i + 1;
    }
    assert(times.take(times.len() as int) =~= times);
    match next {
        Some(n) => {
            if n > cm {
                ((n as i64) - (cm as i64), false, n)
            } else {
                (0, false, n)
            }
        },
        None => (60 - (cm as i64) + (first as i64), true, first),
    }
}

/// Whether the 32-bit computation of the wait fits at `minute:second`, `rung`
/// being the configured minute whose bell has just rung, if any.
pub fn aligned_wait_fits_after(clock_times: &[i32], minute: u32, second: u32, rung: Option<i32>) -> (ok:
    bool)
    requires
        minute < 60,
        second < 60,
    ensures
        ok == aligned_wait_fits(clock_times@, minute as int, second as int, opt_int(rung)),
{
    if clock_times.len() == 0 {
        return true;
    }
    let (mins, wrap, _) = minutes_and_wrap_at(clock_times, minute, second, rung);
    if wrap || mins > 0 {
        let scaled: i128 = (mins as i128) * 60;
        scaled <= i32::MAX as i128 && scaled - (second as i128) >= i32::MIN as i128
    } else {
        true
    }
}

/// Whether the 32-bit computation of the wait fits at `minute:second`.
pub fn aligned_wait_fits_at(clock_times: &[i32], minute: u32, second: u32) -> (ok: bool)
    requires
        minute < 60,
        second < 60,
    ensures
        ok == aligned_wait_fits(clock_times@, minute as int, second as int, None),
{
    aligned_wait_fits_after(clock_times, minute, second, None)
}

/// Whether the 32-bit computation of the wait fits at every minute and
/// second of the hour.
pub fn clock_times_fit_every_minute(clock_times: &[i32]) -> (ok: bool)
    ensures
        ok == aligned_wait_fits_every_minute(clock_times@),
{
    let mut minute: u32 = 0;
    while minute < 60
        invariant
            0 <= minute <= 60,
            forall|m: int, s: int|
                0 <= m < minute && 0 <= s < 60 ==> #[trigger] aligned_wait_fits(
                    clock_times@,
                    m,
                    s,
                    None,
                ),
        decreases 60 - minute,
    {
        let mut second: u32 = 0;
        while second < 60
            invariant
                0 <= minute < 60,
                0 <= second <= 60,
                forall|m: int, s: int|
                    0 <= m < minute && 0 <= s < 60 ==> #[trigger] aligned_wait_fits(
                        clock_times@,
                        m,
                        s,
                        None,
                    ),
                forall|s: int|
                    0 <= s < second ==> #[trigger] aligned_wait_fits(
                        clock_times@,
                        minute as int,
                        s,
                        None,
                    ),
            decreases 60 - second,
        {
            if !aligned_wait_fits_at(clock_times, minute, second) {
                return false;
            }
            second = second + 1;
        }
        minute = minute + 1;
    }
    true
}

/// The wait until the next clock-aligned bell and the configured minute it
/// goes to, when the clock reads `minute:second` past the hour and `rung` is
/// the configured minute whose bell has just rung, if any.
pub fn aligned_wait_after(clock_times: &[i32], minute: u32, second: u32, rung: Option<i32>) -> (res: (
    u64,
    i32,
))
    requires
        minute < 60,
        second < 60,
        aligned_wait_fits(clock_times@, minute as int, second as int, opt_int(rung)),
    ensures
        res.0 as int == aligned_wait_seconds(clock_times@, minute as int, second as int, opt_int(rung)),
        res.0 >= 1,
        clock_times@.len() > 0 ==> res.1 as int == aligned_target(
            clock_times@,
            minute as int,
            second as int,
            opt_int(rung),
        ),
{
    if clock_times.len() == 0 {
        return (3600, 0);
    }
    let (mins, wrap, target) = minutes_and_wrap_at(clock_times, minute, second, rung);
    let secs: i64 = if wrap || mins > 0 {
        mins * 60 - (second as i64)
    } else {
        0
    };
    if secs <= 0 {
        (1, target)
    } else {
        (secs as u64, target)
    }
}

/// Seconds until the next clock-aligned bell when the local clock reads
/// `minute:second` past the hour.
pub fn seconds_until_aligned_trigger_at(clock_times: &[i32], minute: u32, second: u32) -> (wait:
    u64)
    requires
        minute < 60,
        second < 60,
        aligned_wait_fits(clock_times@, minute as int, second as int, None),
    ensures
        wait as int == aligned_wait_seconds(clock_times@, minute as int, second as int, None),
        wait >= 1,
{
    aligned_wait_after(clock_times, minute, second, None).0
}

/// A wait until the next clock-aligned bell, with the clock reading it was
/// computed for and the configured minute it goes to.
pub struct ClockWait {
    pub seconds: u64,
    pub minute: u32,
    pub second: u32,
    pub target: i32,
}

/// Where a configured minute's bell has just rung it is not rung again.
proof fn lemma_just_rung_is_like_a_later_second(times: Seq<i32>, minute: int, rung: Option<int>)
    requires
        rung == Some(minute),
    ensures
        earliest_upcoming(times, minute, 0, rung) == earliest_upcoming(times, minute, 1, None),
    decreases times.len(),
{
    if times.len() > 0 {
        lemma_just_rung_is_like_a_later_second(times.drop_last(), minute, rung);
    }
}

proof fn lemma_unrung_is_plain(times: Seq<i32>, minute: int, second: int, rung: Option<int>)
    requires
        !(rung == Some(minute) && second == 0),
    ensures
        earliest_upcoming(times, minute, second, rung) == earliest_upcoming(
            times,
            minute,
            second,
            None,
        ),
    decreases times.len(),
{
    if times.len() > 0 {
        lemma_unrung_is_plain(times.drop_last(), minute, second, rung);
    }
}

/// When the wait fits at every reading of the hour, it fits after a bell too.
pub proof fn lemma_fits_after_a_bell(times: Seq<i32>, minute: int, second: int, rung: Option<int>)
    requires
        aligned_wait_fits_every_minute(times),
        0 <= minute < 60,
        0 <= second < 60,
    ensures
        aligned_wait_fits(times, minute, second, rung),
{
    if rung == Some(minute) && second == 0 {
        lemma_just_rung_is_like_a_later_second(times, minute, rung);
        assert(aligned_wait_fits(times, minute, 1, None));
    } else {
        lemma_unrung_is_plain(times, minute, second, rung);
        assert(aligned_wait_fits(times, minute, second, None));
    }
}

/// Reads the local clock once and gives the wait until the next clock-aligned
/// bell for that reading, `rung` being the configured minute whose bell has
/// just rung, if any.
pub fn aligned_wait_from_clock(clock_times: &[i32], rung: Option<i32>) -> (w: ClockWait)
    requires
        aligned_wait_fits_every_minute(clock_times@),
    ensures
        w.minute < 60,
        w.second < 60,
        w.seconds as int == aligned_wait_seconds(
            clock_times@,
            w.minute as int,
            w.second as int,
            opt_int(rung),
        ),
        w.seconds >= 1,
        clock_times@.len() > 0 ==> w.target as int == aligned_target(
            clock_times@,
            w.minute as int,
            w.second as int,
            opt_int(rung),
        ),
{
    let (minute, second) = local_minute_and_second();
    proof {
        lemma_fits_after_a_bell(clock_times@, minute as int, second as int, opt_int(rung));
    }
    let (seconds, target) = aligned_wait_after(clock_times, minute, second, rung);
    ClockWait { seconds, minute, second, target }
}

/// Seconds until the next clock-aligned bell, reading the local clock.
/// With no configured minute the wait is an hour and the clock is not read;
/// otherwise the wait is the one for some reading `minute:second` of the hour
/// (`aligned_wait_from_clock` also gives the reading).
pub fn seconds_until_next_aligned_trigger(clock_times: &[i32]) -> (wait: u64)
    requires
        aligned_wait_fits_every_minute(clock_times@),
    ensures
        clock_times@.len() == 0 ==> wait == 3600,
        exists|minute: int, second: int|
            0 <= minute < 60 && 0 <= second < 60 && wait as int == aligned_wait_seconds(
                clock_times@,
                minute,
                second,
                None,
            ),
        wait >= 1,
{
    if clock_times.len() == 0 {
        assert(wait_is_for(clock_times@, 3600, 0, 0));
        return 3600;
    }
    let w = aligned_wait_from_clock(clock_times, None);
    assert(wait_is_for(clock_times@, w.seconds as int, w.minute as int, w.second as int));
    w.seconds
}

spec fn wait_is_for(times: Seq<i32>, wait: int, minute: int, second: int) -> bool {
    0 <= minute < 60 && 0 <= second < 60 && wait == aligned_wait_seconds(times, minute, second, None)
}


/// Every configured minute is a valid minute of the hour.
pub open spec fn minutes_of_hour(times: Seq<i32>) -> bool {
    forall|i: int| 0 <= i < times.len() ==> 0 <= #[trigger] times[i] < 60
}

/// `earliest_upcoming` is the least configured minute that is still ahead.
pub proof fn lemma_earliest_upcoming_is_least(
    times: Seq<i32>,
    minute: int,
    second: int,
    rung: Option<int>,
)
    ensures
        earliest_upcoming(times, minute, second, rung) is Some <==> exists|i: int|
            0 <= i < times.len() && is_upcoming(#[trigger] times[i] as int, minute, second, rung),
        earliest_upcoming(times, minute, second, rung) matches Some(n) ==> {
            &&& is_upcoming(n, minute, second, rung)
            &&& exists|i: int| 0 <= i < times.len() && #[trigger] times[i] == n
            &&& forall|i: int|
                0 <= i < times.len() && is_upcoming(#[trigger] times[i] as int, minute, second, rung)
                    ==> n <= times[i]
        },
    decreases times.len(),
{
    if times.len() > 0 {
        let rest = times.drop_last();
        lemma_earliest_upcoming_is_least(rest, minute, second, rung);
        assert forall|i: int| 0 <= i < rest.len() implies #[trigger] rest[i] == times[i] by {}
        if exists|i: int|
            0 <= i < times.len() && is_upcoming(#[trigger] times[i] as int, minute, second, rung) {
            let i = choose|i: int|
                0 <= i < times.len() && is_upcoming(#[trigger] times[i] as int, minute, second, rung);
            if i < rest.len() {
                assert(is_upcoming(rest[i] as int, minute, second, rung));
            }
        }
        if earliest_upcoming(times, minute, second, rung) is Some {
            let n = earliest_upcoming(times, minute, second, rung)->0;
            if n == times.last() as int {
                assert(times[times.len() - 1] == n);
            } else {
                let j = choose|j: int| 0 <= j < rest.len() && #[trigger] rest[j] == n;
                assert(times[j] == n);
            }
            assert forall|i: int|
                0 <= i < times.len() && is_upcoming(#[trigger] times[i] as int, minute, second, rung)
                    implies n <= times[i] by {
                if i < rest.len() {
                    assert(is_upcoming(rest[i] as int, minute, second, rung));
                }
            }
        }
    }
}

/// `earliest_time` is the least configured minute.
pub proof fn lemma_earliest_time_is_least(times: Seq<i32>)
    requires
        times.len() > 0,
    ensures
        exists|i: int| 0 <= i < times.len() && #[trigger] times[i] == earliest_time(times),
        forall|i: int| 0 <= i < times.len() ==> earliest_time(times) <= #[trigger] times[i],
    decreases times.len(),
{
    if times.len() > 1 {
        let rest = times.drop_last();
        lemma_earliest_time_is_least(rest);
        assert forall|i: int| 0 <= i < rest.len() implies #[trigger] rest[i] == times[i] by {}
        assert forall|i: int| 0 <= i < times.len() implies earliest_time(times) <= #[trigger] times[i] by {
            if i < rest.len() {
                assert(earliest_time(rest) <= rest[i]);
            }
        }
        if earliest_time(times) == times.last() as int {
            assert(times[times.len() - 1] == earliest_time(times));
        } else {
            let j = choose|j: int| 0 <= j < rest.len() && #[trigger] rest[j] == earliest_time(rest);
            assert(times[j] == earliest_time(times));
        }
    } else {
        assert(times[0] == earliest_time(times));
    }
}

/// With every configured minute a minute of the hour, the 32-bit computation
/// of the wait fits whatever the clock reads.
pub proof fn lemma_minutes_of_hour_fit(times: Seq<i32>)
    requires
        minutes_of_hour(times),
    ensures
        aligned_wait_fits_every_minute(times),
{
    assert forall|minute: int, second: int|
        0 <= minute < 60 && 0 <= second < 60 implies #[trigger] aligned_wait_fits(
            times,
            minute,
            second,
            None,
        ) by {
        if times.len() > 0 {
            lemma_earliest_upcoming_is_least(times, minute, second, None);
            lemma_earliest_time_is_least(times);
            let i = choose|i: int| 0 <= i < times.len() && #[trigger] times[i] == earliest_time(times);
            assert(0 <= times[i] < 60);
            if earliest_upcoming(times, minute, second, None) is Some {
                let n = earliest_upcoming(times, minute, second, None)->0;
                let j = choose|j: int| 0 <= j < times.len() && #[trigger] times[j] == n;
                assert(0 <= times[j] < 60);
            }
        }
    }
}

/// With every configured minute a minute of the hour, a clock-aligned bell
/// rings exactly at the start of a configured minute, this hour or the next
/// (`minute * 60 + second` counts the seconds already past in the hour).
/// The one exception is a reading at the first second of a configured minute
/// whose bell has not just rung, where the wait is raised to one second.
pub proof fn lemma_aligned_wait_lands_on_configured_minute(
    times: Seq<i32>,
    minute: int,
    second: int,
    rung: Option<int>,
)
    requires
        minutes_of_hour(times),
        times.len() > 0,
        0 <= minute < 60,
        0 <= second < 60,
        raw_wait_seconds(times, minute, second, rung) > 0,
    ensures
        exists|i: int|
            0 <= i < times.len() && ({
                let target = minute * 60 + second + aligned_wait_seconds(times, minute, second, rung);
                target == #[trigger] times[i] * 60 || target == 3600 + times[i] * 60
            }),
{
    lemma_earliest_upcoming_is_least(times, minute, second, rung);
    lemma_earliest_time_is_least(times);
    let target = minute * 60 + second + aligned_wait_seconds(times, minute, second, rung);
    if earliest_upcoming(times, minute, second, rung) is Some {
        let n = earliest_upcoming(times, minute, second, rung)->0;
        let j = choose|j: int| 0 <= j < times.len() && #[trigger] times[j] == n;
        assert(target == times[j] * 60);
    } else {
        let i = choose|i: int| 0 <= i < times.len() && #[trigger] times[i] == earliest_time(times);
        assert(target == 3600 + times[i] * 60);
    }
}

/// With every configured minute a minute of the hour, a clock-aligned bell
/// skips no configured minute: no configured minute starts strictly between
/// now and the moment the bell rings, in this hour or the next, and the wait
/// is at most an hour.
pub proof fn lemma_aligned_wait_skips_no_configured_minute(
    times: Seq<i32>,
    minute: int,
    second: int,
    rung: Option<int>,
)
    requires
        minutes_of_hour(times),
        0 <= minute < 60,
        0 <= second < 60,
    ensures
        1 <= aligned_wait_seconds(times, minute, second, rung) <= 3600,
        forall|i: int|
            0 <= i < times.len() ==> {
                let now = minute * 60 + second;
                let target = now + aligned_wait_seconds(times, minute, second, rung);
                &&& !(now < #[trigger] times[i] * 60 < target)
                &&& !(now < 3600 + times[i] * 60 < target)
            },
{
    if times.len() > 0 {
        lemma_earliest_upcoming_is_least(times, minute, second, rung);
        lemma_earliest_time_is_least(times);
        let now = minute * 60 + second;
        let target = now + aligned_wait_seconds(times, minute, second, rung);
        if earliest_upcoming(times, minute, second, rung) is Some {
            let n = earliest_upcoming(times, minute, second, rung)->0;
            let j = choose|j: int| 0 <= j < times.len() && #[trigger] times[j] == n;
            assert(0 <= times[j] < 60);
            assert forall|i: int| 0 <= i < times.len() implies {
                &&& !(now < #[trigger] times[i] * 60 < target)
                &&& !(now < 3600 + times[i] * 60 < target)
            } by {
                assert(0 <= times[i] < 60);
                if now < times[i] * 60 < target {
                    assert(is_upcoming(times[i] as int, minute, second, rung));
                }
            }
        } else {
            let k = choose|k: int| 0 <= k < times.len() && #[trigger] times[k] == earliest_time(times);
            assert(0 <= times[k] < 60);
            assert(!is_upcoming(times[k] as int, minute, second, rung));
            assert forall|i: int| 0 <= i < times.len() implies {
                &&& !(now < #[trigger] times[i] * 60 < target)
                &&& !(now < 3600 + times[i] * 60 < target)
            } by {
                assert(0 <= times[i] < 60);
                assert(!is_upcoming(times[i] as int, minute, second, rung));
            }
        }
    }
}



/// Two lists that agree on which configured minutes are still ahead have the
/// same earliest one.
proof fn lemma_earliest_upcoming_agree(
    times: Seq<i32>,
    m1: int,
    s1: int,
    r1: Option<int>,
    m2: int,
    s2: int,
    r2: Option<int>,
)
    requires
        forall|i: int|
            0 <= i < times.len() ==> is_upcoming(#[trigger] times[i] as int, m1, s1, r1)
                == is_upcoming(times[i] as int, m2, s2, r2),
    ensures
        earliest_upcoming(times, m1, s1, r1) == earliest_upcoming(times, m2, s2, r2),
    decreases times.len(),
{
    if times.len() > 0 {
        let rest = times.drop_last();
        assert forall|i: int| 0 <= i < rest.len() implies is_upcoming(#[trigger] rest[i] as int, m1, s1, r1)
            == is_upcoming(rest[i] as int, m2, s2, r2) by {
            assert(rest[i] == times[i]);
        }
        lemma_earliest_upcoming_agree(rest, m1, s1, r1, m2, s2, r2);
        assert(is_upcoming(times[times.len() - 1] as int, m1, s1, r1) == is_upcoming(
            times[times.len() - 1] as int,
            m2,
            s2,
            r2,
        ));
    }
}

/// The clock-aligned wait and the minute it goes to depend only on which
/// minutes are configured, not on their order or on repetitions.
pub proof fn lemma_aligned_wait_depends_on_set_of_minutes(
    t1: Seq<i32>,
    t2: Seq<i32>,
    minute: int,
    second: int,
    rung: Option<int>,
)
    requires
        forall|x: i32| t1.contains(x) <==> t2.contains(x),
    ensures
        aligned_wait_seconds(t1, minute, second, rung) == aligned_wait_seconds(
            t2,
            minute,
            second,
            rung,
        ),
        aligned_wait_fits(t1, minute, second, rung) == aligned_wait_fits(t2, minute, second, rung),
        t1.len() > 0 ==> aligned_target(t1, minute, second, rung) == aligned_target(
            t2,
            minute,
            second,
            rung,
        ),
{
    if t1.len() > 0 {
        assert(t1.contains(t1[0]));
    }
    if t2.len() > 0 {
        assert(t2.contains(t2[0]));
    }
    if t1.len() > 0 && t2.len() > 0 {
        lemma_earliest_upcoming_is_least(t1, minute, second, rung);
        lemma_earliest_upcoming_is_least(t2, minute, second, rung);
        lemma_earliest_time_is_least(t1);
        lemma_earliest_time_is_least(t2);
        // the least configured minutes agree
        let i1 = choose|i: int| 0 <= i < t1.len() && #[trigger] t1[i] == earliest_time(t1);
        let i2 = choose|i: int| 0 <= i < t2.len() && #[trigger] t2[i] == earliest_time(t2);
        assert(t1.contains(t1[i1]));
        assert(t2.contains(t2[i2]));
        let j2 = choose|j: int| 0 <= j < t2.len() && t2[j] == t1[i1];
        let j1 = choose|j: int| 0 <= j < t1.len() && t1[j] == t2[i2];
        assert(earliest_time(t2) <= t2[j2]);
        assert(earliest_time(t1) <= t1[j1]);
        // the least minutes still ahead agree
        let e1 = earliest_upcoming(t1, minute, second, rung);
        let e2 = earliest_upcoming(t2, minute, second, rung);
        if e1 is Some {
            let n1 = e1->0;
            let k1 = choose|i: int| 0 <= i < t1.len() && #[trigger] t1[i] == n1;
            assert(t1.contains(t1[k1]));
            let k2 = choose|j: int| 0 <= j < t2.len() && t2[j] == t1[k1];
            assert(is_upcoming(t2[k2] as int, minute, second, rung));
        }
        if e2 is Some {
            let n2 = e2->0;
            let k2 = choose|i: int| 0 <= i < t2.len() && #[trigger] t2[i] == n2;
            assert(t2.contains(t2[k2]));
            let k1 = choose|j: int| 0 <= j < t1.len() && t1[j] == t2[k2];
            assert(is_upcoming(t1[k1] as int, minute, second, rung));
        }
        if e1 is Some && e2 is Some {
            let n1 = e1->0;
            let n2 = e2->0;
            let k1 = choose|i: int| 0 <= i < t1.len() && #[trigger] t1[i] == n1;
            let k2 = choose|i: int| 0 <= i < t2.len() && #[trigger] t2[i] == n2;
            assert(t1.contains(t1[k1]));
            assert(t2.contains(t2[k2]));
            let a = choose|j: int| 0 <= j < t2.len() && t2[j] == t1[k1];
            let b = choose|j: int| 0 <= j < t1.len() && t1[j] == t2[k2];
            assert(is_upcoming(t2[a] as int, minute, second, rung));
            assert(is_upcoming(t1[b] as int, minute, second, rung));
            assert(n2 <= t2[a]);
            assert(n1 <= t1[b]);
        }
    }
}

/// The clock reading one second after `minute:second`, in the same hour or,
/// after the last second of the hour, at the start of the next one.
pub open spec fn next_second(minute: int, second: int) -> (int, int) {
    if second < 59 {
        (minute, second + 1)
    } else if minute < 59 {
        (minute + 1, 0)
    } else {
        (0, 0)
    }
}

/// With every configured minute a minute of the hour, the clock-aligned wait
/// counts down: one second later the wait to the same configured minute is
/// one second shorter (while more than a second remains).
pub proof fn lemma_aligned_wait_counts_down(times: Seq<i32>, minute: int, second: int)
    requires
        minutes_of_hour(times),
        times.len() > 0,
        0 <= minute < 60,
        0 <= second < 60,
        aligned_wait_seconds(times, minute, second, None) >= 2,
    ensures
        ({
            let (m2, s2) = next_second(minute, second);
            &&& aligned_wait_seconds(times, m2, s2, None) == aligned_wait_seconds(
                times,
                minute,
                second,
                None,
            ) - 1
            &&& aligned_target(times, m2, s2, None) == aligned_target(times, minute, second, None)
        }),
{
    let (m2, s2) = next_second(minute, second);
    lemma_earliest_upcoming_is_least(times, minute, second, None);
    lemma_earliest_time_is_least(times);
    let e1 = earliest_upcoming(times, minute, second, None);
    if second < 59 {
        if second == 0 && e1 is Some && e1->0 == minute {
            assert(false);
        }
        assert forall|i: int| 0 <= i < times.len() implies is_upcoming(
            #[trigger] times[i] as int,
            minute,
            second,
            None,
        ) == is_upcoming(times[i] as int, m2, s2, None) by {
            if second == 0 && times[i] == minute {
                assert(is_upcoming(times[i] as int, minute, second, None));
                assert(e1->0 <= times[i]);
                assert(is_upcoming(e1->0, minute, second, None));
            }
        }
        lemma_earliest_upcoming_agree(times, minute, second, None, m2, s2, None);
    } else if minute < 59 {
        lemma_earliest_upcoming_agree(times, minute, second, None, m2, s2, None);
    } else {
        let k = choose|k: int| 0 <= k < times.len() && #[trigger] times[k] == earliest_time(times);
        assert(0 <= times[k] < 60);
        assert forall|i: int| 0 <= i < times.len() implies !is_upcoming(
            #[trigger] times[i] as int,
            minute,
            second,
            None,
        ) by {
            assert(0 <= times[i] < 60);
        }
        lemma_earliest_upcoming_is_least(times, m2, s2, None);
        assert(is_upcoming(times[k] as int, m2, s2, None));
        let e2 = earliest_upcoming(times, m2, s2, None);
        let j = choose|j: int| 0 <= j < times.len() && #[trigger] times[j] == e2->0;
        assert(earliest_time(times) <= times[j]);
        assert(e2->0 <= times[k]);
    }
}

} // verus!
