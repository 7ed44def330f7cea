//! The bell's settings (all but the fractional ones, which the application
//! keeps), their defaults, and how they are written to and read back from the
//! key-value settings store.

use vstd::prelude::*;
use vstd::string::*;

verus! {

/// The settings that decide when and how the bell rings.
#[derive(Clone, Debug)]
pub struct BellSettings {
    pub is_enabled: bool,
    pub timing_mode: String,
    pub interval_minutes: i32,
    /// Minutes of the hour for clock-aligned mode.
    pub clock_times: Vec<i32>,
    pub custom_sound_path: String,
    pub pause_media_on_bell: bool,
    pub resume_media_after_bell: bool,
    pub sound_enabled: bool,
    pub visual_enabled: bool,
}

/// The mathematical content of [`BellSettings`].
pub struct BellSettingsView {
    pub is_enabled: bool,
    pub timing_mode: Seq<char>,
    pub interval_minutes: i32,
    pub clock_times: Seq<i32>,
    pub custom_sound_path: Seq<char>,
    pub pause_media_on_bell: bool,
    pub resume_media_after_bell: bool,
    pub sound_enabled: bool,
    pub visual_enabled: bool,
}

impl View for BellSettings {
    type V = BellSettingsView;

    open spec fn view(&self) -> BellSettingsView {
        BellSettingsView {
            is_enabled: self.is_enabled,
            timing_mode: self.timing_mode@,
            interval_minutes: self.interval_minutes,
            clock_times: self.clock_times@,
            custom_sound_path: self.custom_sound_path@,
            pause_media_on_bell: self.pause_media_on_bell,
            resume_media_after_bell: self.resume_media_after_bell,
            sound_enabled: self.sound_enabled,
            visual_enabled: self.visual_enabled,
        }
    }
}

/// The timing mode in which bells ring at fixed minutes of the hour.
pub open spec fn clock_aligned_mode() -> Seq<char> {
    "clock-aligned"@
}

/// The clock times used when none are configured: every quarter hour.
pub open spec fn default_clock_times() -> Seq<i32> {
    seq![0i32, 15i32, 30i32, 45i32]
}

/// Enabled, clock-aligned at every quarter hour (a 15-minute interval for
/// fixed mode), the built-in sound, media left alone, sound and screen
/// dimming both on.
pub open spec fn default_settings() -> BellSettingsView {
    BellSettingsView {
        is_enabled: true,
        timing_mode: clock_aligned_mode(),
        interval_minutes: 15,
        clock_times: default_clock_times(),
        custom_sound_path: Seq::empty(),
        pause_media_on_bell: false,
        resume_media_after_bell: false,
        sound_enabled: true,
        visual_enabled: true,
    }
}

/// The name of the clock-aligned timing mode, as settings store it.
pub fn clock_aligned_mode_text() -> (s: String)
    ensures
        s@ == clock_aligned_mode(),
{
    String::from_str("clock-aligned")
}

impl Default for BellSettings {
    fn default() -> (s: Self)
        ensures
            s@ == default_settings(),
    {
        BellSettings {
            is_enabled: true,
            timing_mode: clock_aligned_mode_text(),
            interval_minutes: 15,
            clock_times: vec![0, 15, 30, 45],
            custom_sound_path: String::new(),
            pause_media_on_bell: false,
            resume_media_after_bell: false,
            sound_enabled: true,
            visual_enabled: true,
        }
    }
}


/// A value as the settings store holds it, reduced to what the settings
/// read from it: a boolean, an integer that fits in 64 bits, a string, a list
/// (each item an integer or not), or anything else.
#[derive(Clone, Debug)]
pub enum StoredValue {
    Bool(bool),
    Integer(i64),
    Text(String),
    List(Vec<Option<i64>>),
    Other,
}

pub enum StoredValueView {
    Bool(bool),
    Integer(i64),
    Text(Seq<char>),
    List(Seq<Option<i64>>),
    Other,
}

impl View for StoredValue {
    type V = StoredValueView;

    open spec fn view(&self) -> StoredValueView {
        match self {
            StoredValue::Bool(b) => StoredValueView::Bool(*b),
            StoredValue::Integer(n) => StoredValueView::Integer(*n),
            StoredValue::Text(t) => StoredValueView::Text(t@),
            StoredValue::List(items) => StoredValueView::List(items@),
            StoredValue::Other => StoredValueView::Other,
        }
    }
}

/// What the store holds under each settings key (`None`: nothing).
#[derive(Clone, Debug)]
pub struct StoredSettings {
    pub is_enabled: Option<StoredValue>,
    pub timing_mode: Option<StoredValue>,
    pub interval_minutes: Option<StoredValue>,
    pub clock_times: Option<StoredValue>,
    pub custom_sound_path: Option<StoredValue>,
    pub pause_media_on_bell: Option<StoredValue>,
    pub resume_media_after_bell: Option<StoredValue>,
    pub sound_enabled: Option<StoredValue>,
    pub visual_enabled: Option<StoredValue>,
}

pub struct StoredSettingsView {
    pub is_enabled: Option<StoredValueView>,
    pub timing_mode: Option<StoredValueView>,
    pub interval_minutes: Option<StoredValueView>,
    pub clock_times: Option<StoredValueView>,
    pub custom_sound_path: Option<StoredValueView>,
    pub pause_media_on_bell: Option<StoredValueView>,
    pub resume_media_after_bell: Option<StoredValueView>,
    pub sound_enabled: Option<StoredValueView>,
    pub visual_enabled: Option<StoredValueView>,
}

pub open spec fn stored_view(v: Option<StoredValue>) -> Option<StoredValueView> {
    match v {
        Some(x) => Some(x@),
        None => None,
    }
}

impl View for StoredSettings {
    type V = StoredSettingsView;

    open spec fn view(&self) -> StoredSettingsView {
        StoredSettingsView {
            is_enabled: stored_view(self.is_enabled),
            timing_mode: stored_view(self.timing_mode),
            interval_minutes: stored_view(self.interval_minutes),
            clock_times: stored_view(self.clock_times),
            custom_sound_path: stored_view(self.custom_sound_path),
            pause_media_on_bell: stored_view(self.pause_media_on_bell),
            resume_media_after_bell: stored_view(self.resume_media_after_bell),
            sound_enabled: stored_view(self.sound_enabled),
            visual_enabled: stored_view(self.visual_enabled),
        }
    }
}

/// A stored flag, or `default` when the key holds no boolean.
pub open spec fn read_flag(v: Option<StoredValueView>, default: bool) -> bool {
    match v {
        Some(StoredValueView::Bool(b)) => b,
        _ => default,
    }
}

/// A stored string, or `default` when the key holds no string.
pub open spec fn read_text(v: Option<StoredValueView>, default: Seq<char>) -> Seq<char> {
    match v {
        Some(StoredValueView::Text(t)) => t,
        _ => default,
    }
}

/// A stored integer cut to 32 bits, or 15 when the key holds no integer.
pub open spec fn read_interval(v: Option<StoredValueView>) -> i32 {
    match v {
        Some(StoredValueView::Integer(n)) => n as i32,
        _ => 15,
    }
}

/// The integer items of a stored list, in order, each cut to 32 bits.
pub open spec fn integer_items(items: Seq<Option<i64>>) -> Seq<i32>
    decreases items.len(),
{
    if items.len() == 0 {
        Seq::empty()
    } else {
        let rest = integer_items(items.drop_last());
        match items.last() {
            Some(n) => rest.push(n as i32),
            None => rest,
        }
    }
}

/// The stored clock times, or every quarter hour when the key holds no list.
pub open spec fn read_clock_times(v: Option<StoredValueView>) -> Seq<i32> {
    match v {
        Some(StoredValueView::List(items)) => integer_items(items),
        _ => default_clock_times(),
    }
}

/// The settings that a store's contents give: each key's value where it has
/// the expected kind, the default otherwise.
pub open spec fn settings_from_stored(st: StoredSettingsView) -> BellSettingsView {
    BellSettingsView {
        is_enabled: read_flag(st.is_enabled, true),
        timing_mode: read_text(st.timing_mode, clock_aligned_mode()),
        interval_minutes: read_interval(st.interval_minutes),
        clock_times: read_clock_times(st.clock_times),
        custom_sound_path: read_text(st.custom_sound_path, Seq::empty()),
        pause_media_on_bell: read_flag(st.pause_media_on_bell, false),
        resume_media_after_bell: read_flag(st.resume_media_after_bell, false),
        sound_enabled: read_flag(st.sound_enabled, true),
        visual_enabled: read_flag(st.visual_enabled, true),
    }
}

/// The list a store holds for the given clock times.
pub open spec fn stored_clock_times(times: Seq<i32>) -> Seq<Option<i64>> {
    times.map_values(|t: i32| Some(t as i64))
}

/// What saving writes under each key.
pub open spec fn stored_from_settings(s: BellSettingsView) -> StoredSettingsView {
    StoredSettingsView {
        is_enabled: Some(StoredValueView::Bool(s.is_enabled)),
        timing_mode: Some(StoredValueView::Text(s.timing_mode)),
        interval_minutes: Some(StoredValueView::Integer(s.interval_minutes as i64)),
        clock_times: Some(StoredValueView::List(stored_clock_times(s.clock_times))),
        custom_sound_path: Some(StoredValueView::Text(s.custom_sound_path)),
        pause_media_on_bell: Some(StoredValueView::Bool(s.pause_media_on_bell)),
        resume_media_after_bell: Some(StoredValueView::Bool(s.resume_media_after_bell)),
        sound_enabled: Some(StoredValueView::Bool(s.sound_enabled)),
        visual_enabled: Some(StoredValueView::Bool(s.visual_enabled)),
    }
}

fn take_flag(v: Option<StoredValue>, default: bool) -> (b: bool)
    ensures
        b == read_flag(stored_view(v), default),
{
    match v {
        Some(StoredValue::Bool(b)) => b,
        _ => default,
    }
}

fn take_text(v: Option<StoredValue>, default: String) -> (t: String)
    ensures
        t@ == read_text(stored_view(v), default@),
{
    match v {
        Some(StoredValue::Text(t)) => t,
        _ => default,
    }
}

fn take_interval(v: Option<StoredValue>) -> (n: i32)
    ensures
        n == read_interval(stored_view(v)),
{
    match v {
        Some(StoredValue::Integer(n)) => n as i32,
        _ => 15,
    }
}

/// The integer items of a stored list, in order, each cut to 32 bits.
pub fn keep_integer_items(items: &Vec<Option<i64>>) -> (times: Vec<i32>)
    ensures
        times@ == integer_items(items@),
{
    let mut times: Vec<i32> = Vec::new();
    let mut i: usize = 0;
    while i < items.len()
        invariant
            0 <= i <= items@.len(),
            times@ == integer_items(items@.take(i as int)),
        decreases items@.len() - i,
    {
        assert(items@.take(i + 1).drop_last() =~= items@.take(i as int));
        match items[i] {
            Some(n) => {
                times.push(n as i32);
            },
            None => {},
        }
        i = i + 1;
    }
    assert(items@.take(items@.len() as int) =~= items@);
    times
}

fn take_clock_times(v: Option<StoredValue>) -> (times: Vec<i32>)
    ensures
        times@ == read_clock_times(stored_view(v)),
{
    match v {
        Some(StoredValue::List(items)) => keep_integer_items(&items),
        _ => vec![0, 15, 30, 45],
    }
}

/// The settings loaded from the store's contents.
pub fn settings_from_store(stored: StoredSettings) -> (s: BellSettings)
    ensures
        s@ == settings_from_stored(stored@),
{
    BellSettings {
        is_enabled: take_flag(stored.is_enabled, true),
        timing_mode: take_text(stored.timing_mode, clock_aligned_mode_text()),
        interval_minutes: take_interval(stored.interval_minutes),
        clock_times: take_clock_times(stored.clock_times),
        custom_sound_path: take_text(stored.custom_sound_path, String::new()),
        pause_media_on_bell: take_flag(stored.pause_media_on_bell, false),
        resume_media_after_bell: take_flag(stored.resume_media_after_bell, false),
        sound_enabled: take_flag(stored.sound_enabled, true),
        visual_enabled: take_flag(stored.visual_enabled, true),
    }
}

/// The list saved for the given clock times.
pub fn clock_times_for_store(times: &Vec<i32>) -> (items: Vec<Option<i64>>)
    ensures
        items@ == stored_clock_times(times@),
{
    let mut items: Vec<Option<i64>> = Vec::new();
    let mut i: usize = 0;
    while i < times.len()
        invariant
            0 <= i <= times@.len(),
            items@ == stored_clock_times(times@.take(i as int)),
        decreases times@.len() - i,
    {
        items.push(Some(times[i] as i64));
        i = i + 1;
        assert(items@ =~= stored_clock_times(times@.take(i as int)));
    }
    assert(times@.take(times@.len() as int) =~= times@);
    items
}

/// What saving the settings writes under each key.
pub fn settings_for_store(s: &BellSettings) -> (stored: StoredSettings)
    ensures
        stored@ == stored_from_settings(s@),
{
    StoredSettings {
        is_enabled: Some(StoredValue::Bool(s.is_enabled)),
        timing_mode: Some(StoredValue::Text(s.timing_mode.clone())),
        interval_minutes: Some(StoredValue::Integer(s.interval_minutes as i64)),
        clock_times: Some(StoredValue::List(clock_times_for_store(&s.clock_times))),
        custom_sound_path: Some(StoredValue::Text(s.custom_sound_path.clone())),
        pause_media_on_bell: Some(StoredValue::Bool(s.pause_media_on_bell)),
        resume_media_after_bell: Some(StoredValue::Bool(s.resume_media_after_bell)),
        sound_enabled: Some(StoredValue::Bool(s.sound_enabled)),
        visual_enabled: Some(StoredValue::Bool(s.visual_enabled)),
    }
}

/// A store that holds nothing.
pub open spec fn empty_store() -> StoredSettingsView {
    StoredSettingsView {
        is_enabled: None,
        timing_mode: None,
        interval_minutes: None,
        clock_times: None,
        custom_sound_path: None,
        pause_media_on_bell: None,
        resume_media_after_bell: None,
        sound_enabled: None,
        visual_enabled: None,
    }
}

proof fn lemma_integer_items_of_stored(times: Seq<i32>)
    ensures
        integer_items(stored_clock_times(times)) == times,
    decreases times.len(),
{
    if times.len() > 0 {
        let rest = times.drop_last();
        lemma_integer_items_of_stored(rest);
        assert(stored_clock_times(times).drop_last() =~= stored_clock_times(rest));
        assert(rest.push(times.last()) =~= times);
    }
}

/// Settings read back from what saving them wrote are the settings saved.
pub proof fn lemma_load_after_save(s: BellSettingsView)
    ensures
        settings_from_stored(stored_from_settings(s)) == s,
{
    lemma_integer_items_of_stored(s.clock_times);
}

/// Settings loaded from a store that holds nothing are the defaults.
pub proof fn lemma_load_from_empty_store()
    ensures
        settings_from_stored(empty_store()) == default_settings(),
{
}


/// The keys of the settings store, one per setting.
#[derive(PartialEq, Eq, Structural, Clone, Copy, Debug)]
pub enum SettingKey {
    IsEnabled,
    TimingMode,
    IntervalMinutes,
    ClockTimes,
    Opacity,
    DurationSeconds,
    BellStartDelay,
    Volume,
    CustomSoundPath,
    PauseMediaOnBell,
    ResumeMediaAfterBell,
    SoundEnabled,
    VisualEnabled,
}

/// The name under which the store keeps a setting.
pub open spec fn key_name(k: SettingKey) -> Seq<char> {
    match k {
        SettingKey::IsEnabled => "isEnabled"@,
        SettingKey::TimingMode => "timingMode"@,
        SettingKey::IntervalMinutes => "intervalMinutes"@,
        SettingKey::ClockTimes => "clockTimes"@,
        SettingKey::Opacity => "opacity"@,
        SettingKey::DurationSeconds => "durationSeconds"@,
        SettingKey::BellStartDelay => "bellStartDelay"@,
        SettingKey::Volume => "volume"@,
        SettingKey::CustomSoundPath => "customSoundPath"@,
        SettingKey::PauseMediaOnBell => "pauseMediaOnBell"@,
        SettingKey::ResumeMediaAfterBell => "resumeMediaAfterBell"@,
        SettingKey::SoundEnabled => "soundEnabled"@,
        SettingKey::VisualEnabled => "visualEnabled"@,
    }
}

/// The name under which the store keeps a setting.
pub fn store_key(k: SettingKey) -> (name: &'static str)
    ensures
        name@ == key_name(k),
{
    match k {
        SettingKey::IsEnabled => "isEnabled",
        SettingKey::TimingMode => "timingMode",
        SettingKey::IntervalMinutes => "intervalMinutes",
        SettingKey::ClockTimes => "clockTimes",
        SettingKey::Opacity => "opacity",
        SettingKey::DurationSeconds => "durationSeconds",
        SettingKey::BellStartDelay => "bellStartDelay",
        SettingKey::Volume => "volume",
        SettingKey::CustomSoundPath => "customSoundPath",
        SettingKey::PauseMediaOnBell => "pauseMediaOnBell",
        SettingKey::ResumeMediaAfterBell => "resumeMediaAfterBell",
        SettingKey::SoundEnabled => "soundEnabled",
        SettingKey::VisualEnabled => "visualEnabled",
    }
}

/// Each setting has its own key: different settings are kept under
/// different names, so saving one never overwrites another.
pub proof fn lemma_setting_keys_distinct(a: SettingKey, b: SettingKey)
    requires
        a != b,
    ensures
        key_name(a) != key_name(b),
{
    reveal_strlit("isEnabled");
    reveal_strlit("timingMode");
    reveal_strlit("intervalMinutes");
    reveal_strlit("clockTimes");
    reveal_strlit("opacity");
    reveal_strlit("durationSeconds");
    reveal_strlit("bellStartDelay");
    reveal_strlit("volume");
    reveal_strlit("customSoundPath");
    reveal_strlit("pauseMediaOnBell");
    reveal_strlit("resumeMediaAfterBell");
    reveal_strlit("soundEnabled");
    reveal_strlit("visualEnabled");
    assert(key_name(a).len() != key_name(b).len() || key_name(a)[0] != key_name(b)[0]);
}

/// The store keeps each setting under its documented name: `isEnabled`,
/// `timingMode`, `intervalMinutes`, `clockTimes`, `opacity`,
/// `durationSeconds`, `bellStartDelay`, `volume`, `customSoundPath`,
/// `pauseMediaOnBell`, `resumeMediaAfterBell`, `soundEnabled`,
/// `visualEnabled`, spelled out here character by character.
pub proof fn lemma_store_keys_are_the_documented_names()
    ensures
        key_name(SettingKey::IsEnabled) == seq!['i', 's', 'E', 'n', 'a', 'b', 'l', 'e', 'd'],
        key_name(SettingKey::TimingMode) == seq!['t', 'i', 'm', 'i', 'n', 'g', 'M', 'o', 'd', 'e'],
        key_name(SettingKey::IntervalMinutes) == seq!['i', 'n', 't', 'e', 'r', 'v', 'a', 'l', 'M', 'i', 'n', 'u', 't', 'e', 's'],
        key_name(SettingKey::ClockTimes) == seq!['c', 'l', 'o', 'c', 'k', 'T', 'i', 'm', 'e', 's'],
        key_name(SettingKey::Opacity) == seq!['o', 'p', 'a', 'c', 'i', 't', 'y'],
        key_name(SettingKey::DurationSeconds) == seq!['d', 'u', 'r', 'a', 't', 'i', 'o', 'n', 'S', 'e', 'c', 'o', 'n', 'd', 's'],
        key_name(SettingKey::BellStartDelay) == seq!['b', 'e', 'l', 'l', 'S', 't', 'a', 'r', 't', 'D', 'e', 'l', 'a', 'y'],
        key_name(SettingKey::Volume) == seq!['v', 'o', 'l', 'u', 'm', 'e'],
        key_name(SettingKey::CustomSoundPath) == seq!['c', 'u', 's', 't', 'o', 'm', 'S', 'o', 'u', 'n', 'd', 'P', 'a', 't', 'h'],
        key_name(SettingKey::PauseMediaOnBell) == seq!['p', 'a', 'u', 's', 'e', 'M', 'e', 'd', 'i', 'a', 'O', 'n', 'B', 'e', 'l', 'l'],
        key_name(SettingKey::ResumeMediaAfterBell) == seq!['r', 'e', 's', 'u', 'm', 'e', 'M', 'e', 'd', 'i', 'a', 'A', 'f', 't', 'e', 'r', 'B', 'e', 'l', 'l'],
        key_name(SettingKey::SoundEnabled) == seq!['s', 'o', 'u', 'n', 'd', 'E', 'n', 'a', 'b', 'l', 'e', 'd'],
        key_name(SettingKey::VisualEnabled) == seq!['v', 'i', 's', 'u', 'a', 'l', 'E', 'n', 'a', 'b', 'l', 'e', 'd'],
{
    reveal_strlit("isEnabled");
    reveal_strlit("timingMode");
    reveal_strlit("intervalMinutes");
    reveal_strlit("clockTimes");
    reveal_strlit("opacity");
    reveal_strlit("durationSeconds");
    reveal_strlit("bellStartDelay");
    reveal_strlit("volume");
    reveal_strlit("customSoundPath");
    reveal_strlit("pauseMediaOnBell");
    reveal_strlit("resumeMediaAfterBell");
    reveal_strlit("soundEnabled");
    reveal_strlit("visualEnabled");
    assert(key_name(SettingKey::IsEnabled) =~= seq!['i', 's', 'E', 'n', 'a', 'b', 'l', 'e', 'd']);
    assert(key_name(SettingKey::TimingMode) =~= seq!['t', 'i', 'm', 'i', 'n', 'g', 'M', 'o', 'd', 'e']);
    assert(key_name(SettingKey::IntervalMinutes) =~= seq!['i', 'n', 't', 'e', 'r', 'v', 'a', 'l', 'M', 'i', 'n', 'u', 't', 'e', 's']);
    assert(key_name(SettingKey::ClockTimes) =~= seq!['c', 'l', 'o', 'c', 'k', 'T', 'i', 'm', 'e', 's']);
    assert(key_name(SettingKey::Opacity) =~= seq!['o', 'p', 'a', 'c', 'i', 't', 'y']);
    assert(key_name(SettingKey::DurationSeconds) =~= seq!['d', 'u', 'r', 'a', 't', 'i', 'o', 'n', 'S', 'e', 'c', 'o', 'n', 'd', 's']);
    assert(key_name(SettingKey::BellStartDelay) =~= seq!['b', 'e', 'l', 'l', 'S', 't', 'a', 'r', 't', 'D', 'e', 'l', 'a', 'y']);
    assert(key_name(SettingKey::Volume) =~= seq!['v', 'o', 'l', 'u', 'm', 'e']);
    assert(key_name(SettingKey::CustomSoundPath) =~= seq!['c', 'u', 's', 't', 'o', 'm', 'S', 'o', 'u', 'n', 'd', 'P', 'a', 't', 'h']);
    assert(key_name(SettingKey::PauseMediaOnBell) =~= seq!['p', 'a', 'u', 's', 'e', 'M', 'e', 'd', 'i', 'a', 'O', 'n', 'B', 'e', 'l', 'l']);
    assert(key_name(SettingKey::ResumeMediaAfterBell) =~= seq!['r', 'e', 's', 'u', 'm', 'e', 'M', 'e', 'd', 'i', 'a', 'A', 'f', 't', 'e', 'r', 'B', 'e', 'l', 'l']);
    assert(key_name(SettingKey::SoundEnabled) =~= seq!['s', 'o', 'u', 'n', 'd', 'E', 'n', 'a', 'b', 'l', 'e', 'd']);
    assert(key_name(SettingKey::VisualEnabled) =~= seq!['v', 'i', 's', 'u', 'a', 'l', 'E', 'n', 'a', 'b', 'l', 'e', 'd']);
}

/// Each setting is loaded from its own key: where a key holds a value of
/// the setting's kind, the loaded setting is that value, whatever the other
/// keys hold.
pub proof fn lemma_each_setting_loads_from_its_own_key(st: StoredSettingsView)
    ensures
        st.is_enabled matches Some(StoredValueView::Bool(b)) ==> settings_from_stored(st).is_enabled == b,
        st.pause_media_on_bell matches Some(StoredValueView::Bool(b)) ==> settings_from_stored(st).pause_media_on_bell == b,
        st.resume_media_after_bell matches Some(StoredValueView::Bool(b)) ==> settings_from_stored(st).resume_media_after_bell == b,
        st.sound_enabled matches Some(StoredValueView::Bool(b)) ==> settings_from_stored(st).sound_enabled == b,
        st.visual_enabled matches Some(StoredValueView::Bool(b)) ==> settings_from_stored(st).visual_enabled == b,
        st.timing_mode matches Some(StoredValueView::Text(t)) ==> settings_from_stored(st).timing_mode
            == t,
        st.custom_sound_path matches Some(StoredValueView::Text(t)) ==> settings_from_stored(
            st,
        ).custom_sound_path == t,
        st.interval_minutes matches Some(StoredValueView::Integer(n)) ==> (-0x8000_0000 <= n
            < 0x8000_0000 ==> settings_from_stored(st).interval_minutes == n),
        st.clock_times matches Some(StoredValueView::List(items)) ==> (forall|i: int|
            0 <= i < items.len() ==> #[trigger] items[i] is Some && -0x8000_0000 <= items[i]->0
                < 0x8000_0000) ==> settings_from_stored(st).clock_times.len() == items.len() && (
        forall|i: int|
            0 <= i < items.len() ==> settings_from_stored(st).clock_times[i] == #[trigger] items[i]->0),
        st.is_enabled is None ==> settings_from_stored(st).is_enabled == true,
        st.pause_media_on_bell is None ==> settings_from_stored(st).pause_media_on_bell == false,
        st.resume_media_after_bell is None ==> settings_from_stored(st).resume_media_after_bell == false,
        st.sound_enabled is None ==> settings_from_stored(st).sound_enabled == true,
        st.visual_enabled is None ==> settings_from_stored(st).visual_enabled == true,
{
    match st.clock_times {
        Some(StoredValueView::List(items)) => lemma_integer_items_of_integers(items),
        _ => {},
    }
}

proof fn lemma_integer_items_of_integers(items: Seq<Option<i64>>)
    ensures
        (forall|i: int|
            0 <= i < items.len() ==> #[trigger] items[i] is Some && -0x8000_0000 <= items[i]->0
                < 0x8000_0000) ==> integer_items(items).len() == items.len() && (forall|i: int|
            0 <= i < items.len() ==> integer_items(items)[i] == #[trigger] items[i]->0),
    decreases items.len(),
{
    if items.len() > 0 {
        let rest = items.drop_last();
        lemma_integer_items_of_integers(rest);
        if forall|i: int|
            0 <= i < items.len() ==> #[trigger] items[i] is Some && -0x8000_0000 <= items[i]->0
                < 0x8000_0000 {
            assert forall|i: int|
                0 <= i < rest.len() implies #[trigger] rest[i] is Some && -0x8000_0000
                <= rest[i]->0 < 0x8000_0000 by {
                assert(rest[i] == items[i]);
            }
            assert forall|i: int| 0 <= i < items.len() implies integer_items(items)[i]
                == #[trigger] items[i]->0 by {
                if i < rest.len() {
                    assert(rest[i] == items[i]);
                } else {
                    assert(items[i] == items.last());
                }
            }
        }
    }
}

/// Each setting is saved under its own key, as a value of its kind.
pub proof fn lemma_each_setting_saves_to_its_own_key(s: BellSettingsView)
    ensures
        stored_from_settings(s).is_enabled == Some(StoredValueView::Bool(s.is_enabled)),
        stored_from_settings(s).pause_media_on_bell == Some(StoredValueView::Bool(s.pause_media_on_bell)),
        stored_from_settings(s).resume_media_after_bell == Some(StoredValueView::Bool(s.resume_media_after_bell)),
        stored_from_settings(s).sound_enabled == Some(StoredValueView::Bool(s.sound_enabled)),
        stored_from_settings(s).visual_enabled == Some(StoredValueView::Bool(s.visual_enabled)),
        stored_from_settings(s).timing_mode == Some(StoredValueView::Text(s.timing_mode)),
        stored_from_settings(s).custom_sound_path == Some(StoredValueView::Text(s.custom_sound_path)),
        stored_from_settings(s).interval_minutes == Some(
            StoredValueView::Integer(s.interval_minutes as i64),
        ),
        stored_from_settings(s).clock_times matches Some(StoredValueView::List(items)) && items.len()
            == s.clock_times.len() && forall|i: int|
            0 <= i < items.len() ==> #[trigger] items[i] == Some(s.clock_times[i] as i64),
{
}

} // verus!
