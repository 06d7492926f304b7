use tauricord::theme::{css_event_reinjects, css_injection_script, CssFileEvent};
use tauricord::tray::{
    menu_action, toggle_window, tray_click_toggles, tray_menu, update_tooltip, ButtonState,
    MenuAction, MouseButton, TrayMenuItem,
};

#[test]
fn css_script_quotes_the_style_sheet() {
    let script = css_injection_script("body { color: red; }");
    assert_eq!(
        script,
        "document.getElementById('tauricord-css')?.remove();\nconst s = document.createElement('style');\ns.id = 'tauricord-css';\ns.textContent = \"body { color: red; }\";\ndocument.head?.appendChild(s);"
    );
}

#[test]
fn css_script_escapes_quotes_and_controls() {
    let script = css_injection_script("a\"b\\c\nd\te\u{1}f\u{8}\u{c}\r/é");
    assert!(script.contains("s.textContent = \"a\\\"b\\\\c\\nd\\te\\u0001f\\b\\f\\r/é\";"));
    let script = css_injection_script("\u{1f}");
    assert!(script.contains("\"\\u001f\""));
}

#[test]
fn watcher_events() {
    assert!(css_event_reinjects(CssFileEvent::Created));
    assert!(css_event_reinjects(CssFileEvent::Modified));
    assert!(!css_event_reinjects(CssFileEvent::Other));
}

#[test]
fn tray_menu_entries() {
    let items = tray_menu();
    let ids: Vec<Option<(&str, &str)>> = items
        .iter()
        .map(|i| match i {
            TrayMenuItem::Entry(id, label) => Some((*id, *label)),
            TrayMenuItem::Separator => None,
        })
        .collect();
    assert_eq!(
        ids,
        vec![
            Some(("toggle", "Hide Tauricord")),
            Some(("settings", "Settings")),
            Some(("check_update", "Check for Updates")),
            Some(("devtools", "Toggle DevTools")),
            Some(("about", "About")),
            None,
            Some(("quit", "Quit")),
        ]
    );
}

#[test]
fn menu_actions() {
    assert_eq!(menu_action("toggle"), MenuAction::ToggleWindow);
    assert_eq!(menu_action("settings"), MenuAction::OpenSettings);
    assert_eq!(menu_action("check_update"), MenuAction::CheckForUpdates);
    assert_eq!(menu_action("devtools"), MenuAction::ToggleDevTools);
    assert_eq!(menu_action("about"), MenuAction::ShowAbout);
    assert_eq!(menu_action("quit"), MenuAction::Quit);
    assert_eq!(menu_action("Quit"), MenuAction::Ignore);
    assert_eq!(menu_action(""), MenuAction::Ignore);
}

#[test]
fn toggling_the_window() {
    let hide = toggle_window(true);
    assert!(!hide.show);
    assert_eq!(hide.label, "Show Tauricord");
    let show = toggle_window(false);
    assert!(show.show);
    assert_eq!(show.label, "Hide Tauricord");
    assert!(toggle_window(toggle_window(true).show).show);
}

#[test]
fn tray_clicks() {
    assert!(tray_click_toggles(MouseButton::Left, ButtonState::Up));
    assert!(!tray_click_toggles(MouseButton::Left, ButtonState::Down));
    assert!(!tray_click_toggles(MouseButton::Right, ButtonState::Up));
    assert!(!tray_click_toggles(MouseButton::Middle, ButtonState::Up));
}

#[test]
fn update_tooltip_text() {
    assert_eq!(update_tooltip("2.1.0"), "Update v2.1.0 available");
}
