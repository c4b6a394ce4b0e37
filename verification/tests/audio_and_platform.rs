use keyslop::autostart::{
    desktop_entry_for, desktop_file_path, disable, enable, is_enabled, registry_add_arguments,
    registry_add_result, registry_delete_arguments, registry_delete_result, registry_query_arguments, windows_registry_key,
    AutostartPlan, Platform,
};
use keyslop::devices::{default_device_name, find_device_by_name, usable_device_names};
use keyslop::polyphony::PolyphonyQueue;
use keyslop::tray::{icon_rgba, TrayMessage, ICON_SIZE};

fn queue_with(ids: &[u32], limit: usize) -> PolyphonyQueue<u32> {
    let mut q = PolyphonyQueue::new();
    q.set_max_polyphony(limit);
    for id in ids {
        q.push(*id);
    }
    q
}

#[test]
fn new_queue_has_default_limit() {
    let q: PolyphonyQueue<u32> = PolyphonyQueue::new();
    assert_eq!(q.max_polyphony(), 5);
    assert_eq!(q.len(), 0);
}

#[test]
fn limit_is_at_least_one() {
    let mut q: PolyphonyQueue<u32> = PolyphonyQueue::new();
    q.set_max_polyphony(0);
    assert_eq!(q.max_polyphony(), 1);
    q.set_max_polyphony(12);
    assert_eq!(q.max_polyphony(), 12);
}

#[test]
fn finished_voices_are_dropped_first() {
    let mut q = queue_with(&[1, 2, 3, 4], 5);
    let stopped = q.enforce_polyphony(&vec![false, true, false, true]);
    assert!(stopped.is_empty());
    assert_eq!(q.active().iter().copied().collect::<Vec<u32>>(), vec![1, 3]);
}

#[test]
fn oldest_voices_stop_to_make_room() {
    let mut q = queue_with(&[1, 2, 3, 4, 5], 3);
    let stopped = q.enforce_polyphony(&vec![false; 5]);
    assert_eq!(stopped, vec![1, 2, 3]);
    assert_eq!(q.active().iter().copied().collect::<Vec<u32>>(), vec![4, 5]);
    q.push(6);
    assert_eq!(q.len(), 3);
}

#[test]
fn a_single_voice_limit_stops_everything_before_the_next() {
    let mut q = queue_with(&[7, 8], 1);
    let stopped = q.enforce_polyphony(&vec![false, false]);
    assert_eq!(stopped, vec![7, 8]);
    assert_eq!(q.len(), 0);
}

#[test]
fn never_more_voices_than_the_limit() {
    let mut q: PolyphonyQueue<u32> = PolyphonyQueue::new();
    q.set_max_polyphony(2);
    for id in 0..10u32 {
        let flags = vec![false; q.len()];
        let _ = q.enforce_polyphony(&flags);
        q.push(id);
        assert!(q.len() <= 2);
    }
    assert_eq!(q.active().iter().copied().collect::<Vec<u32>>(), vec![8, 9]);
}

#[test]
fn registry_key_and_arguments() {
    assert_eq!(windows_registry_key(), r"Software\Microsoft\Windows\CurrentVersion\Run");
    let key = r"HKCU\Software\Microsoft\Windows\CurrentVersion\Run".to_string();
    assert_eq!(
        registry_add_arguments(r"C:\bin\keyslop.exe"),
        vec![
            "add".to_string(),
            key.clone(),
            "/v".to_string(),
            "KeySlop".to_string(),
            "/t".to_string(),
            "REG_SZ".to_string(),
            "/d".to_string(),
            "\"C:\\bin\\keyslop.exe\"".to_string(),
            "/f".to_string(),
        ]
    );
    assert_eq!(
        registry_delete_arguments(),
        vec!["delete".to_string(), key.clone(), "/v".to_string(), "KeySlop".to_string(), "/f".to_string()]
    );
    assert_eq!(
        registry_query_arguments(),
        vec!["query".to_string(), key, "/v".to_string(), "KeySlop".to_string()]
    );
}

#[test]
fn desktop_entry_text() {
    assert_eq!(
        desktop_entry_for("/usr/bin/keyslop"),
        "[Desktop Entry]\nType=Application\nName=KeySlop\nExec=/usr/bin/keyslop\nHidden=false\nNoDisplay=false\nX-GNOME-Autostart-enabled=true\nComment=Keyboard soundboard application\n"
    );
    assert_eq!(desktop_file_path("/home/u/.config/autostart"), "/home/u/.config/autostart/keyslop.desktop");
}

#[test]
fn enable_plans_per_platform() {
    match enable(Platform::Linux, Ok("/opt/keyslop".to_string())) {
        Ok(AutostartPlan::WriteDesktopEntry(entry)) => assert!(entry.contains("\nExec=/opt/keyslop\n")),
        _ => panic!("expected a desktop entry"),
    }
    match enable(Platform::Windows, Ok("k.exe".to_string())) {
        Ok(AutostartPlan::RunRegistry(args)) => assert_eq!(args[0], "add"),
        _ => panic!("expected a registry command"),
    }
    match enable(Platform::Other, Ok("k".to_string())) {
        Err(e) => assert_eq!(e, "Autostart is not supported on this platform"),
        _ => panic!("expected an error"),
    }
    match enable(Platform::Linux, Err("Failed to get executable path: gone".to_string())) {
        Err(e) => assert_eq!(e, "Failed to get executable path: gone"),
        _ => panic!("expected the path error"),
    }
}

#[test]
fn disable_and_check_plans_per_platform() {
    assert!(matches!(disable(Platform::Linux), Ok(AutostartPlan::RemoveDesktopEntry)));
    match disable(Platform::Windows) {
        Ok(AutostartPlan::RunRegistry(args)) => assert_eq!(args[0], "delete"),
        _ => panic!("expected a registry command"),
    }
    assert!(disable(Platform::Other).is_err());
    assert!(matches!(is_enabled(Platform::Linux), Some(AutostartPlan::CheckDesktopEntry)));
    match is_enabled(Platform::Windows) {
        Some(AutostartPlan::RunRegistry(args)) => assert_eq!(args[0], "query"),
        _ => panic!("expected a registry command"),
    }
    assert!(is_enabled(Platform::Other).is_none());
}

#[test]
fn registry_add_outcome() {
    assert_eq!(registry_add_result(true, "ignored"), Ok(()));
    assert_eq!(
        registry_add_result(false, "access denied"),
        Err("Failed to set registry key: access denied".to_string())
    );
}

#[test]
fn registry_delete_outcome() {
    assert_eq!(registry_delete_result(true), Ok(()));
    assert_eq!(registry_delete_result(false), Ok(()));
}

#[test]
fn tray_menu_ids() {
    let show = "show-1".to_string();
    let quit = "quit-2".to_string();
    assert_eq!(TrayMessage::from_menu_id(&"show-1".to_string(), &show, &quit), Some(TrayMessage::Show));
    assert_eq!(TrayMessage::from_menu_id(&"quit-2".to_string(), &show, &quit), Some(TrayMessage::Quit));
    assert_eq!(TrayMessage::from_menu_id(&"other".to_string(), &show, &quit), None);
}

#[test]
fn tray_icon_is_a_purple_square() {
    let rgba = icon_rgba();
    assert_eq!(rgba.len(), (ICON_SIZE * ICON_SIZE * 4) as usize);
    for px in rgba.chunks(4) {
        assert_eq!(px, &[140, 80, 220, 255]);
    }
}

#[test]
fn devices_by_name() {
    let reported = vec![Some("Speakers".to_string()), None, Some("USB".to_string()), Some("USB".to_string())];
    assert_eq!(usable_device_names(&reported), vec!["Speakers".to_string(), "USB".to_string(), "USB".to_string()]);
    assert_eq!(find_device_by_name(&reported, "USB"), Some(2));
    assert_eq!(find_device_by_name(&reported, "HDMI"), None);
    assert_eq!(default_device_name(Some("Speakers".to_string())), "Speakers");
    assert_eq!(default_device_name(None), "Default");
}
