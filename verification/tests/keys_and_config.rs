use keyslop::config::{
    config_path, default_enabled, default_max_polyphony, default_volume_bits, AppConfig,
};
use keyslop::key_sounds::KeySounds;
use keyslop::keys::{decimal_string, key_message, key_to_string, Key, KeyMessage};

#[test]
fn named_keys_use_their_stable_names() {
    assert_eq!(key_to_string(Key::Alt), "Alt");
    assert_eq!(key_to_string(Key::Space), "Space");
    assert_eq!(key_to_string(Key::ControlLeft), "ControlLeft");
    assert_eq!(key_to_string(Key::KpDelete), "KpDelete");
    assert_eq!(key_to_string(Key::F10), "F10");
}

#[test]
fn letter_keys_keep_their_name_and_digits_drop_the_prefix() {
    assert_eq!(key_to_string(Key::KeyA), "KeyA");
    assert_eq!(key_to_string(Key::KeyZ), "KeyZ");
    assert_eq!(key_to_string(Key::Num1), "1");
    assert_eq!(key_to_string(Key::Num0), "0");
    assert_eq!(key_to_string(Key::Kp7), "Kp7");
}

#[test]
fn keys_without_an_explicit_name_use_the_variant_name() {
    assert_eq!(key_to_string(Key::IntlBackslash), "IntlBackslash");
    assert_eq!(key_to_string(Key::Function), "Function");
}

#[test]
fn unknown_keys_carry_their_code() {
    assert_eq!(key_to_string(Key::Unknown(42)), "Unknown(42)");
    assert_eq!(key_to_string(Key::Unknown(0)), "Unknown(0)");
    assert_eq!(key_to_string(Key::Unknown(u32::MAX)), "Unknown(4294967295)");
}

#[test]
fn decimal_notation() {
    assert_eq!(decimal_string(0), "0");
    assert_eq!(decimal_string(7), "7");
    assert_eq!(decimal_string(10), "10");
    assert_eq!(decimal_string(1203), "1203");
}

#[test]
fn key_press_message_names_the_key() {
    match key_message(Key::Return) {
        KeyMessage::KeyPressed(name) => assert_eq!(name, "Return"),
    }
}

#[test]
fn config_defaults() {
    let c = AppConfig::default();
    assert!(c.global_sound.is_none());
    assert!(c.key_sounds.keys().is_empty());
    assert_eq!(f32::from_bits(c.volume_bits), 1.0);
    assert!(c.enabled);
    assert!(!c.autostart);
    assert!(c.audio_device.is_none());
    assert_eq!(c.max_polyphony, 5);
    assert!(default_enabled());
    assert_eq!(default_max_polyphony(), 5);
    assert_eq!(f32::from_bits(default_volume_bits()), 1.0);
}

#[test]
fn per_key_sound_overrides_global_sound() {
    let mut c = AppConfig::default();
    c.global_sound = Some("/s/global.wav".to_string());
    c.key_sounds.insert("KeyA".to_string(), "/s/a.wav".to_string());
    assert_eq!(c.sound_for_key("KeyA").map(|s| s.as_str()), Some("/s/a.wav"));
    assert_eq!(c.sound_for_key("KeyB").map(|s| s.as_str()), Some("/s/global.wav"));
}

#[test]
fn no_sound_without_mapping_or_global() {
    let mut c = AppConfig::default();
    assert!(c.sound_for_key("KeyA").is_none());
    c.key_sounds.insert("Space".to_string(), "/s/space.ogg".to_string());
    assert!(c.sound_for_key("KeyA").is_none());
    assert_eq!(c.sound_for_key("Space").map(|s| s.as_str()), Some("/s/space.ogg"));
}

#[test]
fn assigned_sound_plays_and_removal_falls_back() {
    let mut c = AppConfig::default();
    c.global_sound = Some("g.wav".to_string());
    c.key_sounds.insert("KeyA".to_string(), "a1.wav".to_string());
    c.key_sounds.insert("KeyB".to_string(), "b.wav".to_string());
    c.key_sounds.insert("KeyA".to_string(), "a2.wav".to_string());
    assert_eq!(c.sound_for_key("KeyA").unwrap(), "a2.wav");
    assert_eq!(c.sound_for_key("KeyB").unwrap(), "b.wav");
    assert_eq!(c.key_sounds.remove("KeyA"), Some("a2.wav".to_string()));
    assert_eq!(c.key_sounds.remove("KeyA"), None);
    assert_eq!(c.sound_for_key("KeyA").unwrap(), "g.wav");
    assert_eq!(c.sound_for_key("KeyB").unwrap(), "b.wav");
}

#[test]
fn key_sounds_keep_each_key_once() {
    let mut m = KeySounds::new();
    m.insert("KeyA".to_string(), "1".to_string());
    m.insert("KeyB".to_string(), "2".to_string());
    m.insert("KeyA".to_string(), "3".to_string());
    let mut keys = m.keys();
    keys.sort();
    assert_eq!(keys, vec!["KeyA".to_string(), "KeyB".to_string()]);
    assert_eq!(m.get("KeyA"), Some(&"3".to_string()));
    assert_eq!(m.get("C"), None);
}

#[test]
fn config_file_lives_in_config_dir() {
    let p = config_path("/home/u/.config/keyslop");
    assert!(p == "/home/u/.config/keyslop/config.json" || p == "/home/u/.config/keyslop\\config.json");
    let q = config_path("/home/u/.config/keyslop/");
    assert_eq!(q, "/home/u/.config/keyslop/config.json");
    assert_eq!(config_path(""), "config.json");
    let p = std::path::PathBuf::from(config_path("/home/u/.config/keyslop"));
    assert_eq!(p.file_name().unwrap(), "config.json");
    assert_eq!(p.parent().unwrap(), std::path::Path::new("/home/u/.config/keyslop"));
}

#[test]
fn config_clones_keep_their_contents() {
    let mut c = AppConfig::default();
    c.key_sounds.insert("KeyA".to_string(), "a.wav".to_string());
    let d = c.clone();
    c.key_sounds.remove("KeyA");
    assert_eq!(d.sound_for_key("KeyA").unwrap(), "a.wav");
    assert!(c.sound_for_key("KeyA").is_none());
}

#[test]
fn distinct_keys_have_distinct_names() {
    let keys = [
        Key::Num1, Key::Kp1, Key::F1, Key::KeyF, Key::F10, Key::Unknown(1), Key::Unknown(10),
        Key::UpArrow, Key::Minus, Key::KpMinus, Key::BackSlash, Key::IntlBackslash,
    ];
    let names: Vec<String> = keys.iter().map(|k| key_to_string(*k)).collect();
    for i in 0..names.len() {
        for j in 0..names.len() {
            if i != j {
                assert_ne!(names[i], names[j]);
            }
        }
    }
}
