use tauricord::platform::{
    normalize_badge_count, note_window_message, overlay_icon, remember_button_created_msg,
    set_taskbar_ready, subclass_install_result, target_os_from_name, user_agent, windows_state,
    BadgeIcon, TargetOs,
};

#[test]
fn target_os_names() {
    assert_eq!(target_os_from_name("windows"), TargetOs::Windows);
    assert_eq!(target_os_from_name("macos"), TargetOs::MacOs);
    assert_eq!(target_os_from_name("linux"), TargetOs::Linux);
    assert_eq!(target_os_from_name("freebsd"), TargetOs::Other);
    assert_eq!(target_os_from_name("Linux"), TargetOs::Other);
}

#[test]
fn user_agents_per_system() {
    assert!(user_agent(TargetOs::Windows).starts_with("Mozilla/5.0 (Windows NT 10.0; Win64; x64)"));
    assert!(user_agent(TargetOs::MacOs).starts_with("Mozilla/5.0 (Macintosh; Intel Mac OS X 10_15_7)"));
    assert!(user_agent(TargetOs::Linux).starts_with("Mozilla/5.0 (X11; Linux x86_64)"));
    assert_eq!(user_agent(TargetOs::Other), user_agent(TargetOs::Linux));
    assert!(user_agent(TargetOs::Windows).ends_with("Chrome/131.0.0.0 Safari/537.36"));
}

#[test]
fn zero_count_clears_the_badge() {
    assert_eq!(normalize_badge_count(Some(0)), None);
    assert_eq!(normalize_badge_count(None), None);
    assert_eq!(normalize_badge_count(Some(3)), Some(3));
    assert_eq!(normalize_badge_count(Some(-1)), Some(-1));
}

#[test]
fn overlay_icons_for_counts() {
    assert_eq!(overlay_icon(None), None);
    assert_eq!(overlay_icon(Some(-1)), Some(BadgeIcon::Unread));
    assert_eq!(overlay_icon(Some(i64::MIN)), Some(BadgeIcon::Unread));
    assert_eq!(overlay_icon(Some(1)), Some(BadgeIcon::Digit(1)));
    assert_eq!(overlay_icon(Some(9)), Some(BadgeIcon::Digit(9)));
    assert_eq!(overlay_icon(Some(10)), Some(BadgeIcon::NinePlus));
    assert_eq!(overlay_icon(Some(250)), Some(BadgeIcon::NinePlus));
    assert_eq!(overlay_icon(Some(0)), Some(BadgeIcon::NinePlus));
    assert_eq!(overlay_icon(normalize_badge_count(Some(0))), None);
}

#[test]
fn taskbar_readiness_is_recorded_per_window() {
    let mut state = windows_state();
    assert!(state.ready_map.is_empty());
    assert_eq!(state.button_created_msg, None);
    set_taskbar_ready(&mut state, 7, false);
    set_taskbar_ready(&mut state, 9, true);
    assert_eq!(state.ready_map.get(&7), Some(&false));
    assert_eq!(state.ready_map.get(&9), Some(&true));
    set_taskbar_ready(&mut state, 7, true);
    assert_eq!(state.ready_map.get(&7), Some(&true));
    assert_eq!(state.ready_map.len(), 2);
}

#[test]
fn button_created_message_is_remembered_once() {
    let mut state = windows_state();
    assert_eq!(remember_button_created_msg(&mut state, 49_000), 49_000);
    assert_eq!(remember_button_created_msg(&mut state, 50_000), 49_000);
    assert_eq!(state.button_created_msg, Some(49_000));
}

#[test]
fn only_the_button_created_message_marks_a_window_ready() {
    let mut state = windows_state();
    note_window_message(&mut state, 5, 49_000);
    assert!(state.ready_map.is_empty());
    remember_button_created_msg(&mut state, 49_000);
    set_taskbar_ready(&mut state, 5, false);
    note_window_message(&mut state, 5, 15);
    assert_eq!(state.ready_map.get(&5), Some(&false));
    note_window_message(&mut state, 5, 49_000);
    assert_eq!(state.ready_map.get(&5), Some(&true));
}

#[test]
fn subclass_install_outcome() {
    assert_eq!(subclass_install_result(true), Ok(()));
    assert_eq!(
        subclass_install_result(false),
        Err("failed to install Windows taskbar subclass".to_string())
    );
}
