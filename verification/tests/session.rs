use keyslop::config::AppConfig;
use keyslop::session::{sorted_shown_keys, AppState};
use keyslop::text::{contains, string_lt, strip_prefix};

fn state() -> AppState {
    let mut c = AppConfig::default();
    c.global_sound = Some("global.wav".to_string());
    c.key_sounds.insert("KeyA".to_string(), "a.wav".to_string());
    AppState::new(c, vec!["Speakers".to_string()])
}

#[test]
fn starts_ready() {
    let s = state();
    assert_eq!(s.status_msg, "Ready");
    assert_eq!(s.last_key, "");
    assert!(!s.capturing_key);
    assert!(s.selected_key.is_none());
    assert_eq!(s.filter_text, "");
    assert_eq!(s.available_devices, vec!["Speakers".to_string()]);
}

#[test]
fn key_press_plays_mapped_then_global_sound() {
    let mut s = state();
    assert_eq!(s.on_key_pressed("KeyA".to_string()), Some("a.wav".to_string()));
    assert_eq!(s.last_key, "KeyA");
    assert_eq!(s.on_key_pressed("KeyB".to_string()), Some("global.wav".to_string()));
    assert_eq!(s.last_key, "KeyB");
}

#[test]
fn disabled_key_press_plays_nothing() {
    let mut s = state();
    s.toggle_enabled();
    assert!(!s.config.enabled);
    assert_eq!(s.on_key_pressed("KeyA".to_string()), None);
    assert_eq!(s.last_key, "KeyA");
    s.toggle_enabled();
    assert!(s.config.enabled);
    assert_eq!(s.on_key_pressed("KeyA".to_string()), Some("a.wav".to_string()));
}

#[test]
fn capture_selects_next_key_without_playing() {
    let mut s = state();
    s.begin_capture();
    assert!(s.capturing_key);
    assert_eq!(s.on_key_pressed("Space".to_string()), None);
    assert!(!s.capturing_key);
    assert_eq!(s.selected_key.as_deref(), Some("Space"));
    assert!(s.assign_sound("space.wav".to_string()));
    assert_eq!(s.on_key_pressed("Space".to_string()), Some("space.wav".to_string()));
}

#[test]
fn cancelled_capture_keeps_playing() {
    let mut s = state();
    s.begin_capture();
    s.cancel_capture();
    assert_eq!(s.on_key_pressed("KeyA".to_string()), Some("a.wav".to_string()));
    assert!(s.selected_key.is_none());
}

#[test]
fn assign_without_selection_does_nothing() {
    let mut s = state();
    assert!(!s.assign_sound("x.wav".to_string()));
    assert_eq!(s.config.key_sounds.keys(), vec!["KeyA".to_string()]);
}

#[test]
fn removing_a_key_sound_falls_back_to_global() {
    let mut s = state();
    s.remove_key_sound("KeyA");
    assert_eq!(s.on_key_pressed("KeyA".to_string()), Some("global.wav".to_string()));
    s.clear_global_sound();
    assert_eq!(s.on_key_pressed("KeyA".to_string()), None);
    s.set_global_sound("g2.wav".to_string());
    assert_eq!(s.on_key_pressed("KeyQ".to_string()), Some("g2.wav".to_string()));
}

#[test]
fn status_messages() {
    let mut s = state();
    s.on_save_result(Ok(()));
    assert_eq!(s.status_msg, "Config saved");
    s.on_save_result(Err("disk full".to_string()));
    assert_eq!(s.status_msg, "Save failed: disk full");
    s.report_playback_error("Sound file not found: x.wav");
    assert_eq!(s.status_msg, "Playback error: Sound file not found: x.wav");
    s.report_test_playback_error("bad");
    assert_eq!(s.status_msg, "Test playback error: bad");
}

#[test]
fn device_switch_round_trip() {
    let mut s = state();
    assert_eq!(s.pending_device_switch(), None);
    s.request_device_switch("USB Audio");
    assert_eq!(s.status_msg, "__switch_device:USB Audio");
    assert_eq!(s.pending_device_switch(), Some("USB Audio".to_string()));
    assert!(s.on_device_switched("USB Audio", Ok(())));
    assert_eq!(s.status_msg, "Switched to: USB Audio");
    assert_eq!(s.config.audio_device.as_deref(), Some("USB Audio"));
    assert_eq!(s.pending_device_switch(), None);
}

#[test]
fn polyphony_setting() {
    let mut s = state();
    s.set_max_polyphony(12);
    assert_eq!(s.config.max_polyphony, 12);
    assert_eq!(s.status_msg, "Ready");
}

#[test]
fn save_after_switch_leaves_no_pending_switch() {
    let mut s = state();
    s.request_device_switch("USB");
    let device = s.pending_device_switch().unwrap();
    assert!(!s.on_device_switched(&device, Err("gone".to_string())));
    assert_eq!(s.pending_device_switch(), None);
    s.on_save_result(Ok(()));
    assert_eq!(s.pending_device_switch(), None);
}

#[test]
fn failed_device_switch_keeps_device() {
    let mut s = state();
    assert!(!s.on_device_switched("HDMI", Err("Audio device not found: HDMI".to_string())));
    assert_eq!(s.status_msg, "Failed to switch device: Audio device not found: HDMI");
    assert!(s.config.audio_device.is_none());
}

#[test]
fn autostart_toggle_outcomes() {
    let mut s = state();
    s.on_autostart_toggled(true, Ok(()));
    assert!(s.config.autostart);
    assert_eq!(s.status_msg, "Autostart enabled");
    s.on_autostart_toggled(false, Err("busy".to_string()));
    assert!(s.config.autostart);
    assert_eq!(s.status_msg, "Failed to disable autostart: busy");
    s.on_autostart_toggled(false, Ok(()));
    assert!(!s.config.autostart);
    assert_eq!(s.status_msg, "Autostart disabled");
    s.on_autostart_toggled(true, Err("denied".to_string()));
    assert!(!s.config.autostart);
    assert_eq!(s.status_msg, "Autostart failed: denied");
}

#[test]
fn visible_keys_are_sorted_and_filtered() {
    let mut s = state();
    for k in ["Space", "KeyB", "KpMinus", "Minus", "1"] {
        s.config.key_sounds.insert(k.to_string(), "x.wav".to_string());
    }
    let all: Vec<String> = ["1", "KeyA", "KeyB", "KpMinus", "Minus", "Space"].iter().map(|k| k.to_string()).collect();
    assert_eq!(s.visible_keys(), all);
    s.filter_text = "MIN".to_string();
    assert_eq!(s.visible_keys(), vec!["KpMinus".to_string(), "Minus".to_string()]);
    s.filter_text = "zzz".to_string();
    assert!(s.visible_keys().is_empty());
}

#[test]
fn text_helpers() {
    assert!(contains("kpminus", "min"));
    assert!(contains("abc", ""));
    assert!(!contains("ab", "abc"));
    assert!(string_lt("KeyA", "KeyB"));
    assert!(string_lt("Kp", "Kp1"));
    assert!(!string_lt("b", "KeyB"));
    assert!(!string_lt("x", "x"));
    assert_eq!(strip_prefix("pre:rest", "pre:"), Some("rest".to_string()));
    assert_eq!(strip_prefix("pre", "pre:"), None);
}

#[test]
fn shown_keys_from_lowercase_forms() {
    let keys = vec![
        ("Space".to_string(), "space".to_string()),
        ("A".to_string(), "a".to_string()),
        ("KpMinus".to_string(), "kpminus".to_string()),
        ("A".to_string(), "a".to_string()),
    ];
    assert_eq!(
        sorted_shown_keys(&keys, ""),
        vec!["A".to_string(), "KpMinus".to_string(), "Space".to_string()]
    );
    assert_eq!(sorted_shown_keys(&keys, "pace"), vec!["Space".to_string()]);
    assert!(sorted_shown_keys(&keys, "SPACE").is_empty());
}
