use mindfulness_bell::settings::{
    keep_integer_items, store_key, SettingKey, settings_for_store, settings_from_store, BellSettings, StoredSettings,
    StoredValue,
};

fn empty_store() -> StoredSettings {
    StoredSettings {
        is_enabled: None,
        timing_mode: None,
        interval_minutes: None,
        clock_times: None,
        custom_sound_path: None,
        pause_media_on_bell: None,
        resume_media_after_bell: None,
        sound_enabled: None,
        visual_enabled: None,
    }
}

fn assert_same(a: &BellSettings, b: &BellSettings) {
    assert_eq!(a.is_enabled, b.is_enabled);
    assert_eq!(a.timing_mode, b.timing_mode);
    assert_eq!(a.interval_minutes, b.interval_minutes);
    assert_eq!(a.clock_times, b.clock_times);
    assert_eq!(a.custom_sound_path, b.custom_sound_path);
    assert_eq!(a.pause_media_on_bell, b.pause_media_on_bell);
    assert_eq!(a.resume_media_after_bell, b.resume_media_after_bell);
    assert_eq!(a.sound_enabled, b.sound_enabled);
    assert_eq!(a.visual_enabled, b.visual_enabled);
}

#[test]
fn default_settings() {
    let d = BellSettings::default();
    assert!(d.is_enabled);
    assert_eq!(d.timing_mode, "clock-aligned");
    assert_eq!(d.interval_minutes, 15);
    assert_eq!(d.clock_times, vec![0, 15, 30, 45]);
    assert_eq!(d.custom_sound_path, "");
    assert!(!d.pause_media_on_bell);
    assert!(!d.resume_media_after_bell);
    assert!(d.sound_enabled);
    assert!(d.visual_enabled);
}

#[test]
fn empty_store_loads_defaults() {
    assert_same(&settings_from_store(empty_store()), &BellSettings::default());
}

#[test]
fn load_after_save_gives_the_saved_settings() {
    let s = BellSettings {
        is_enabled: false,
        timing_mode: "fixed-interval".to_string(),
        interval_minutes: -7,
        clock_times: vec![59, 3, i32::MIN, i32::MAX],
        custom_sound_path: "/tmp/gong.mp3".to_string(),
        pause_media_on_bell: true,
        resume_media_after_bell: true,
        sound_enabled: false,
        visual_enabled: false,
    };
    assert_same(&settings_from_store(settings_for_store(&s)), &s);
    let d = BellSettings::default();
    assert_same(&settings_from_store(settings_for_store(&d)), &d);
}

#[test]
fn values_of_the_wrong_kind_fall_back_to_defaults() {
    let st = StoredSettings {
        is_enabled: Some(StoredValue::Integer(0)),
        timing_mode: Some(StoredValue::Bool(true)),
        interval_minutes: Some(StoredValue::Text("30".to_string())),
        clock_times: Some(StoredValue::Other),
        custom_sound_path: Some(StoredValue::List(vec![])),
        pause_media_on_bell: Some(StoredValue::Other),
        resume_media_after_bell: Some(StoredValue::Text("true".to_string())),
        sound_enabled: Some(StoredValue::Integer(1)),
        visual_enabled: None,
    };
    assert_same(&settings_from_store(st), &BellSettings::default());
}

#[test]
fn stored_values_of_the_right_kind_are_taken() {
    let mut st = empty_store();
    st.is_enabled = Some(StoredValue::Bool(false));
    st.timing_mode = Some(StoredValue::Text("fixed-interval".to_string()));
    st.interval_minutes = Some(StoredValue::Integer(60));
    st.clock_times = Some(StoredValue::List(vec![Some(5), None, Some(50)]));
    st.visual_enabled = Some(StoredValue::Bool(false));
    let s = settings_from_store(st);
    assert!(!s.is_enabled);
    assert_eq!(s.timing_mode, "fixed-interval");
    assert_eq!(s.interval_minutes, 60);
    assert_eq!(s.clock_times, vec![5, 50]);
    assert!(!s.visual_enabled);
    assert!(s.sound_enabled);
}

#[test]
fn stored_integers_are_cut_to_32_bits() {
    assert_eq!(keep_integer_items(&vec![Some(4294967311), None, Some(-1)]), vec![15, -1]);
    let mut st = empty_store();
    st.interval_minutes = Some(StoredValue::Integer(4294967326));
    assert_eq!(settings_from_store(st).interval_minutes, 30);
}

#[test]
fn saving_writes_every_key() {
    let st = settings_for_store(&BellSettings::default());
    assert!(matches!(st.is_enabled, Some(StoredValue::Bool(true))));
    assert!(matches!(st.interval_minutes, Some(StoredValue::Integer(15))));
    match st.clock_times {
        Some(StoredValue::List(items)) => {
            assert_eq!(items, vec![Some(0), Some(15), Some(30), Some(45)])
        }
        _ => panic!("clock times not saved as a list"),
    }
    match st.timing_mode {
        Some(StoredValue::Text(t)) => assert_eq!(t, "clock-aligned"),
        _ => panic!("timing mode not saved as text"),
    }
}

#[test]
fn store_key_names() {
    let all = [
        SettingKey::IsEnabled,
        SettingKey::TimingMode,
        SettingKey::IntervalMinutes,
        SettingKey::ClockTimes,
        SettingKey::Opacity,
        SettingKey::DurationSeconds,
        SettingKey::BellStartDelay,
        SettingKey::Volume,
        SettingKey::CustomSoundPath,
        SettingKey::PauseMediaOnBell,
        SettingKey::ResumeMediaAfterBell,
        SettingKey::SoundEnabled,
        SettingKey::VisualEnabled,
    ];
    assert_eq!(store_key(SettingKey::IsEnabled), "isEnabled");
    assert_eq!(store_key(SettingKey::ClockTimes), "clockTimes");
    assert_eq!(store_key(SettingKey::ResumeMediaAfterBell), "resumeMediaAfterBell");
    for (i, a) in all.iter().enumerate() {
        for (j, b) in all.iter().enumerate() {
            assert_eq!(i == j, store_key(*a) == store_key(*b));
        }
    }
}
