use mindfulness_bell::media::{output_says_playing, text_says_playing};
use mindfulness_bell::tray::{menu_command, should_prevent_exit, tray_icon_for, MenuCommand, TrayIcon};

#[test]
fn playing_answer() {
    assert!(output_says_playing(Some(b"true\n")));
    assert!(output_says_playing(Some(b" \t true \r\n")));
    assert!(output_says_playing(Some("\u{a0}true\u{3000}".as_bytes())));
    assert!(!output_says_playing(Some(b"false\n")));
    assert!(!output_says_playing(Some(b"")));
    assert!(!output_says_playing(Some(b"tru e")));
    assert!(!output_says_playing(Some(b"TRUE")));
    assert!(!output_says_playing(None));
    assert!(output_says_playing(Some("true\u{2029}".as_bytes())));
}

#[test]
fn invalid_bytes_are_not_white_space() {
    assert!(!output_says_playing(Some(b"\xfftrue")));
    assert!(!output_says_playing(Some(b"true\xc2")));
}

#[test]
fn text_answer() {
    assert!(text_says_playing("true"));
    assert!(text_says_playing("\n\ntrue\u{2028}"));
    assert!(!text_says_playing("truee"));
    assert!(!text_says_playing("   "));
}

#[test]
fn tray_and_menu() {
    assert_eq!(tray_icon_for(true), TrayIcon::Enabled);
    assert_eq!(tray_icon_for(false), TrayIcon::Disabled);
    assert_eq!(menu_command("quit"), MenuCommand::Quit);
    assert_eq!(menu_command("settings"), MenuCommand::OpenSettings);
    assert_eq!(menu_command("about"), MenuCommand::Nothing);
    assert_eq!(menu_command(""), MenuCommand::Nothing);
    assert!(should_prevent_exit(None));
    assert!(!should_prevent_exit(Some(0)));
}
