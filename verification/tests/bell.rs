use mindfulness_bell::bell::{
    bell_enabled_in, media_check_needed, overlay_plays_sound, overlay_url, overlay_window_label, overlay_window_labels,
    plan_bell, sound_or_default, wants_custom_sound, BellPlan, Presentation,
};
use mindfulness_bell::settings::BellSettings;

fn settings(pause: bool, resume: bool, sound: bool, visual: bool) -> BellSettings {
    let mut s = BellSettings::default();
    s.pause_media_on_bell = pause;
    s.resume_media_after_bell = resume;
    s.sound_enabled = sound;
    s.visual_enabled = visual;
    s
}

#[test]
fn default_bell_dims_with_sound_and_leaves_media() {
    let s = BellSettings::default();
    assert!(!media_check_needed(&s));
    assert_eq!(
        plan_bell(&s, true),
        BellPlan {
            pause_media: false,
            resume_media_later: false,
            presentation: Presentation::Overlay { play_sound: true }
        }
    );
}

#[test]
fn media_paused_only_when_playing() {
    let s = settings(true, true, true, true);
    assert!(media_check_needed(&s));
    let p = plan_bell(&s, true);
    assert!(p.pause_media && p.resume_media_later);
    let p = plan_bell(&s, false);
    assert!(!p.pause_media && !p.resume_media_later);
    let p = plan_bell(&settings(true, false, true, true), true);
    assert!(p.pause_media && !p.resume_media_later);
}

#[test]
fn presentation_follows_sound_and_visual() {
    assert_eq!(
        plan_bell(&settings(false, false, false, true), false).presentation,
        Presentation::Overlay { play_sound: false }
    );
    assert_eq!(
        plan_bell(&settings(false, false, true, false), false).presentation,
        Presentation::SoundOnly
    );
    assert_eq!(
        plan_bell(&settings(false, false, false, false), false).presentation,
        Presentation::Silent
    );
}

#[test]
fn only_first_overlay_plays_sound() {
    assert!(overlay_plays_sound(0, true));
    assert!(!overlay_plays_sound(1, true));
    assert!(!overlay_plays_sound(0, false));
    assert!(!overlay_plays_sound(7, false));
}

#[test]
fn overlay_labels() {
    assert_eq!(overlay_window_label(0), "overlay-0");
    assert_eq!(overlay_window_label(9), "overlay-9");
    assert_eq!(overlay_window_label(10), "overlay-10");
    assert_eq!(overlay_window_label(1203), "overlay-1203");
    assert_eq!(overlay_window_label(usize::MAX), format!("overlay-{}", usize::MAX));
    assert_ne!(overlay_window_label(12), overlay_window_label(21));
}

#[test]
fn overlay_page_url() {
    assert_eq!(
        overlay_url("0.8", "3", "0.5", true),
        "overlay.html?opacity=0.8&duration=3&bellDelay=0.5&playSound=true"
    );
    assert_eq!(
        overlay_url("1", "30", "0", false),
        "overlay.html?opacity=1&duration=30&bellDelay=0&playSound=false"
    );
}

#[test]
fn sound_choice() {
    assert!(!wants_custom_sound(""));
    assert!(wants_custom_sound("/tmp/gong.mp3"));
    assert_eq!(sound_or_default(Some(vec![1, 2, 3]), &[9, 9]), vec![1, 2, 3]);
    assert_eq!(sound_or_default(None, &[9, 9]), vec![9, 9]);
}

#[test]
fn enabled_reading() {
    let mut s = BellSettings::default();
    assert!(bell_enabled_in(Some(&s)));
    s.is_enabled = false;
    assert!(!bell_enabled_in(Some(&s)));
    assert!(!bell_enabled_in(None));
}

#[test]
fn overlay_labels_of_one_bell() {
    assert_eq!(overlay_window_labels(7, 3), vec!["overlay-7", "overlay-8", "overlay-9"]);
    assert!(overlay_window_labels(7, 0).is_empty());
    assert_eq!(
        overlay_window_labels(usize::MAX, 2),
        vec![format!("overlay-{}", usize::MAX), "overlay-0".to_string()]
    );
}
