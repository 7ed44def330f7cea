//! What ringing the bell does: pausing media, dimming the screens, playing
//! the sound; and the small decisions around it.

use vstd::prelude::*;
use vstd::string::*;

use crate::settings::{BellSettings, BellSettingsView};

verus! {

/// How a bell shows itself.
#[derive(PartialEq, Eq, Structural, Clone, Copy, Debug)]
pub enum Presentation {
    /// Dim every screen; the first overlay plays the sound when `play_sound`.
    Overlay { play_sound: bool },
    /// No overlay; play the sound after the start delay.
    SoundOnly,
    /// Neither overlay nor sound.
    Silent,
}

/// What one bell does.
#[derive(PartialEq, Eq, Structural, Clone, Copy, Debug)]
pub struct BellPlan {
    /// Send the play/pause media key now.
    pub pause_media: bool,
    /// Send the play/pause media key again once the bell is over.
    pub resume_media_later: bool,
    pub presentation: Presentation,
}

/// The plan for one bell: media is paused when pausing is on and something
/// is playing, resumed afterwards only if it was paused and resuming is on;
/// the screens are dimmed when the visual is on (the overlay carrying the
/// sound when sound is on), otherwise the sound alone plays when it is on.
pub open spec fn bell_plan(s: BellSettingsView, media_playing: bool) -> BellPlan {
    let pause = s.pause_media_on_bell && media_playing;
    BellPlan {
        pause_media: pause,
        resume_media_later: pause && s.resume_media_after_bell,
        presentation: if s.visual_enabled {
            Presentation::Overlay { play_sound: s.sound_enabled }
        } else if s.sound_enabled {
            Presentation::SoundOnly
        } else {
            Presentation::Silent
        },
    }
}

/// Whether the bell needs to know if media is playing (only when pausing is on).
pub fn media_check_needed(s: &BellSettings) -> (needed: bool)
    ensures
        needed == s.pause_media_on_bell,
{
    s.pause_media_on_bell
}

/// The plan for one bell, given whether media is playing (ignored when
/// pausing is off).
pub fn plan_bell(s: &BellSettings, media_playing: bool) -> (plan: BellPlan)
    ensures
        plan == bell_plan(s@, media_playing),
{
    let pause = s.pause_media_on_bell && media_playing;
    let presentation = if s.visual_enabled {
        Presentation::Overlay { play_sound: s.sound_enabled }
    } else if s.sound_enabled {
        Presentation::SoundOnly
    } else {
        Presentation::Silent
    };
    BellPlan {
        pause_media: pause,
        resume_media_later: pause && s.resume_media_after_bell,
        presentation,
    }
}

/// A bell is heard exactly when sound is on, the screens dim exactly when
/// the visual is on, and media is resumed only when it was paused, and
/// paused only when it was playing.
pub proof fn lemma_bell_plan_follows_settings(s: BellSettingsView, media_playing: bool)
    ensures
        ({
            let plan = bell_plan(s, media_playing);
            &&& (plan.presentation == Presentation::SoundOnly || plan.presentation
                == Presentation::Overlay { play_sound: true }) <==> s.sound_enabled
            &&& (plan.presentation is Overlay) <==> s.visual_enabled
            &&& plan.resume_media_later ==> plan.pause_media
            &&& plan.pause_media ==> media_playing
            &&& plan.pause_media ==> s.pause_media_on_bell
            &&& plan.resume_media_later ==> s.resume_media_after_bell
        }),
{
}

/// Media is paused exactly when pausing is on and something is playing, and
/// resumed later exactly when it was paused and resuming is on; with pausing
/// off the media is never touched, whatever the resume setting.
pub proof fn lemma_media_paused_only_when_pausing_is_on(s: BellSettingsView, media_playing: bool)
    ensures
        bell_plan(s, media_playing).pause_media <==> (s.pause_media_on_bell && media_playing),
        bell_plan(s, media_playing).resume_media_later <==> (s.pause_media_on_bell && media_playing
            && s.resume_media_after_bell),
        !s.pause_media_on_bell ==> (!bell_plan(s, media_playing).pause_media && !bell_plan(
            s,
            media_playing,
        ).resume_media_later),
        !media_playing ==> (!bell_plan(s, media_playing).pause_media && !bell_plan(
            s,
            media_playing,
        ).resume_media_later),
{
}

/// Whether the overlay on the `index`-th screen plays the sound: only the
/// first one does, and only when the bell's overlay carries the sound.
pub open spec fn overlay_sound_at(index: int, play_sound: bool) -> bool {
    index == 0 && play_sound
}

pub fn overlay_plays_sound(index: usize, play_sound: bool) -> (plays: bool)
    ensures
        plays == overlay_sound_at(index as int, play_sound),
{
    index == 0 && play_sound
}

/// At most one overlay plays the sound.
pub proof fn lemma_sound_plays_at_most_once(i: int, j: int, play_sound: bool)
    requires
        overlay_sound_at(i, play_sound),
        overlay_sound_at(j, play_sound),
    ensures
        i == j,
{
}

/// The character of a decimal digit.
pub open spec fn digit_char(d: int) -> char {
    if d == 0 {
        '0'
    } else if d == 1 {
        '1'
    } else if d == 2 {
        '2'
    } else if d == 3 {
        '3'
    } else if d == 4 {
        '4'
    } else if d == 5 {
        '5'
    } else if d == 6 {
        '6'
    } else if d == 7 {
        '7'
    } else if d == 8 {
        '8'
    } else {
        '9'
    }
}

/// The decimal numeral of `n`, without leading zeros.
pub open spec fn decimal(n: nat) -> Seq<char>
    decreases n,
{
    if n < 10 {
        seq![digit_char(n as int)]
    } else {
        decimal(n / 10).push(digit_char((n % 10) as int))
    }
}

fn digit_text(d: usize) -> (t: &'static str)
    requires
        d < 10,
    ensures
        t@ == seq![digit_char(d as int)],
{
    proof {
        reveal_strlit("0");
        reveal_strlit("1");
        reveal_strlit("2");
        reveal_strlit("3");
        reveal_strlit("4");
        reveal_strlit("5");
        reveal_strlit("6");
        reveal_strlit("7");
        reveal_strlit("8");
        reveal_strlit("9");
    }
    match d {
        0 => "0",
        1 => "1",
        2 => "2",
        3 => "3",
        4 => "4",
        5 => "5",
        6 => "6",
        7 => "7",
        8 => "8",
        _ => "9",
    }
}

fn append_decimal(out: &mut String, n: usize)
    ensures
        final(out)@ == old(out)@ + decimal(n as nat),
    decreases n,
{
    if n >= 10 {
        append_decimal(out, n / 10);
    }
    let t = digit_text(n % 10);
    out.append(t);
    assert(final(out)@ =~= old(out)@ + decimal(n as nat));
}

/// The label of the overlay window made with the given counter value.
pub open spec fn overlay_label(counter: nat) -> Seq<char> {
    "overlay-"@ + decimal(counter)
}

pub fn overlay_window_label(counter: usize) -> (label: String)
    ensures
        label@ == overlay_label(counter as nat),
{
    let mut label = String::from_str("overlay-");
    append_decimal(&mut label, counter);
    label
}

/// The counter value of the `i`-th of the overlays numbered from `first`,
/// wrapping around past the largest counter value.
pub open spec fn label_counter(first: usize, i: int) -> int {
    if first + i > usize::MAX {
        first + i - (usize::MAX + 1)
    } else {
        first + i
    }
}

/// The labels of `count` overlay windows numbered from the counter value
/// `first` (one per screen, in screen order).
pub fn overlay_window_labels(first: usize, count: usize) -> (labels: Vec<String>)
    ensures
        labels@.len() == count,
        forall|i: int|
            0 <= i < count ==> #[trigger] labels@[i]@ == overlay_label(
                label_counter(first, i) as nat,
            ),
{
    let mut labels: Vec<String> = Vec::new();
    let mut i: usize = 0;
    while i < count
        invariant
            0 <= i <= count,
            labels@.len() == i,
            forall|k: int|
                0 <= k < i ==> #[trigger] labels@[k]@ == overlay_label(
                    label_counter(first, k) as nat,
                ),
        decreases count - i,
    {
        let label = overlay_window_label(first.wrapping_add(i));
        labels.push(label);
        i = i + 1;
    }
    labels
}

proof fn lemma_digit_char_injective(a: int, b: int)
    requires
        0 <= a < 10,
        0 <= b < 10,
        digit_char(a) == digit_char(b),
    ensures
        a == b,
{
}

proof fn lemma_decimal_injective(a: nat, b: nat)
    requires
        decimal(a) == decimal(b),
    ensures
        a == b,
    decreases a,
{
    if a < 10 && b < 10 {
        assert(decimal(a) == seq![digit_char(a as int)]);
        assert(decimal(b) == seq![digit_char(b as int)]);
        assert(decimal(a)[0] == decimal(b)[0]);
        assert(decimal(a)[0] == digit_char(a as int));
        assert(decimal(b)[0] == digit_char(b as int));
        lemma_digit_char_injective(a as int, b as int);
    } else if a < 10 {
        lemma_decimal_nonempty((b / 10) as nat);
        assert(decimal(b).len() >= 2);
    } else if b < 10 {
        lemma_decimal_nonempty((a / 10) as nat);
        assert(decimal(a).len() >= 2);
    } else {
        let da = decimal(a);
        let db = decimal(b);
        assert(da.last() == db.last());
        lemma_digit_char_injective((a % 10) as int, (b % 10) as int);
        assert(da.drop_last() =~= decimal((a / 10) as nat));
        assert(db.drop_last() =~= decimal((b / 10) as nat));
        lemma_decimal_injective((a / 10) as nat, (b / 10) as nat);
    }
}

proof fn lemma_decimal_nonempty(n: nat)
    ensures
        decimal(n).len() >= 1,
    decreases n,
{
    if n >= 10 {
        lemma_decimal_nonempty((n / 10) as nat);
    }
}

/// Overlay windows made with different counter values get different labels.
pub proof fn lemma_overlay_labels_distinct(a: nat, b: nat)
    requires
        a != b,
    ensures
        overlay_label(a) != overlay_label(b),
{
    if overlay_label(a) == overlay_label(b) {
        let p = "overlay-"@;
        assert(overlay_label(a).subrange(p.len() as int, overlay_label(a).len() as int)
            =~= decimal(a));
        assert(overlay_label(b).subrange(p.len() as int, overlay_label(b).len() as int)
            =~= decimal(b));
        lemma_decimal_injective(a, b);
    }
}


/// The page an overlay window loads: the overlay page with the opacity,
/// duration and bell delay (as the application writes those numbers) and
/// whether this overlay plays the sound, as query parameters.
pub open spec fn overlay_page(
    opacity: Seq<char>,
    duration: Seq<char>,
    bell_delay: Seq<char>,
    play_sound: bool,
) -> Seq<char> {
    "overlay.html?opacity="@ + opacity + "&duration="@ + duration + "&bellDelay="@ + bell_delay
        + "&playSound="@ + if play_sound {
        "true"@
    } else {
        "false"@
    }
}

pub fn overlay_url(opacity: &str, duration: &str, bell_delay: &str, play_sound: bool) -> (url:
    String)
    ensures
        url@ == overlay_page(opacity@, duration@, bell_delay@, play_sound),
{
    let mut url = String::from_str("overlay.html?opacity=");
    url.append(opacity);
    url.append("&duration=");
    url.append(duration);
    url.append("&bellDelay=");
    url.append(bell_delay);
    url.append("&playSound=");
    if play_sound {
        url.append("true");
    } else {
        url.append("false");
    }
    url
}

/// A custom sound is tried only when a path is set.
pub fn wants_custom_sound(custom_path: &str) -> (wanted: bool)
    ensures
        wanted == (custom_path@.len() > 0),
{
    !custom_path.is_empty()
}

/// The sound to play: the custom sound's bytes when they could be read,
/// otherwise the built-in bell.
pub fn sound_or_default(custom: Option<Vec<u8>>, default_sound: &[u8]) -> (data: Vec<u8>)
    ensures
        data@ == match custom {
            Some(bytes) => bytes@,
            None => default_sound@,
        },
{
    match custom {
        Some(bytes) => bytes,
        None => vstd::slice::slice_to_vec(default_sound),
    }
}

/// Whether the bell counts as enabled, given the settings when they can be
/// read (`None`: they cannot, and the bell counts as off).
pub fn bell_enabled_in(settings: Option<&BellSettings>) -> (enabled: bool)
    ensures
        enabled == match settings {
            Some(s) => s.is_enabled,
            None => false,
        },
{
    match settings {
        Some(s) => s.is_enabled,
        None => false,
    }
}


/// The overlay windows of one bell get pairwise different labels, as long as
/// the counter does not come round to `first` again.
pub proof fn lemma_overlay_labels_of_a_bell_distinct(first: usize, count: int, i: int, j: int)
    requires
        count <= usize::MAX + 1,
        0 <= i < count,
        0 <= j < count,
        i != j,
    ensures
        overlay_label(label_counter(first, i) as nat) != overlay_label(label_counter(first, j) as nat),
{
    lemma_overlay_labels_distinct(label_counter(first, i) as nat, label_counter(first, j) as nat);
}

} // verus!
