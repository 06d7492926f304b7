//! The tray icon: its menu, what each entry does, and how a click shows or
//! hides the main window.
use vstd::prelude::*;
use crate::text::str_eq;

verus! {

/// An entry of the tray menu.
#[derive(Debug, Clone, Copy)]
pub enum TrayMenuItem {
    /// A clickable entry with its identifier and its label.
    Entry(&'static str, &'static str),
    Separator,
}

/// The tray menu's entries as (identifier, label) text, in order; a
/// separator is `None`.
pub open spec fn tray_menu_spec() -> Seq<Option<(Seq<char>, Seq<char>)>> {
    seq![
        Some(("toggle"@, "Hide Tauricord"@)),
        Some(("settings"@, "Settings"@)),
        Some(("check_update"@, "Check for Updates"@)),
        Some(("devtools"@, "Toggle DevTools"@)),
        Some(("about"@, "About"@)),
        None,
        Some(("quit"@, "Quit"@)),
    ]
}

pub open spec fn menu_item_view(item: TrayMenuItem) -> Option<(Seq<char>, Seq<char>)> {
    match item {
        TrayMenuItem::Entry(id, label) => Some((id@, label@)),
        TrayMenuItem::Separator => None,
    }
}

/// The tray menu, top to bottom. The main window starts visible, so the
/// first entry offers to hide it.
pub fn tray_menu() -> (res: Vec<TrayMenuItem>)
    ensures
        res@.map_values(|item: TrayMenuItem| menu_item_view(item)) == tray_menu_spec(),
{
    let mut items: Vec<TrayMenuItem> = Vec::new();
    items.push(TrayMenuItem::Entry("toggle", "Hide Tauricord"));
    items.push(TrayMenuItem::Entry("settings", "Settings"));
    items.push(TrayMenuItem::Entry("check_update", "Check for Updates"));
    items.push(TrayMenuItem::Entry("devtools", "Toggle DevTools"));
    items.push(TrayMenuItem::Entry("about", "About"));
    items.push(TrayMenuItem::Separator);
    items.push(TrayMenuItem::Entry("quit", "Quit"));
    assert(items@.map_values(|item: TrayMenuItem| menu_item_view(item)) =~= tray_menu_spec());
    items
}

/// What choosing a menu entry does.
#[derive(PartialEq, Eq, Structural, Debug, Clone, Copy)]
pub enum MenuAction {
    /// Show the main window if it is hidden, hide it if it is visible.
    ToggleWindow,
    OpenSettings,
    CheckForUpdates,
    ToggleDevTools,
    ShowAbout,
    Quit,
    /// An identifier the tray does not know: nothing happens.
    Ignore,
}

pub open spec fn menu_action_spec(id: Seq<char>) -> MenuAction {
    if id == "toggle"@ {
        MenuAction::ToggleWindow
    } else if id == "settings"@ {
        MenuAction::OpenSettings
    } else if id == "check_update"@ {
        MenuAction::CheckForUpdates
    } else if id == "devtools"@ {
        MenuAction::ToggleDevTools
    } else if id == "about"@ {
        MenuAction::ShowAbout
    } else if id == "quit"@ {
        MenuAction::Quit
    } else {
        MenuAction::Ignore
    }
}

/// The action of the menu entry with identifier `id`.
pub fn menu_action(id: &str) -> (res: MenuAction)
    ensures
        res == menu_action_spec(id@),
{
    if str_eq(id, "toggle") {
        MenuAction::ToggleWindow
    } else if str_eq(id, "settings") {
        MenuAction::OpenSettings
    } else if str_eq(id, "check_update") {
        MenuAction::CheckForUpdates
    } else if str_eq(id, "devtools") {
        MenuAction::ToggleDevTools
    } else if str_eq(id, "about") {
        MenuAction::ShowAbout
    } else if str_eq(id, "quit") {
        MenuAction::Quit
    } else {
        MenuAction::Ignore
    }
}

/// What toggling the main window does: whether it ends up shown (and
/// focused) or hidden, and the new label of the toggle entry.
#[derive(Debug, Clone, Copy)]
pub struct ToggleOutcome {
    pub show: bool,
    pub label: &'static str,
}

/// The label of the toggle entry while the window is, or is not, visible.
pub open spec fn toggle_label_spec(visible: bool) -> Seq<char> {
    if visible {
        "Hide Tauricord"@
    } else {
        "Show Tauricord"@
    }
}

/// Whether toggling a window that is, or is not, visible shows it.
pub open spec fn toggle_shows(visible: bool) -> bool {
    !visible
}

/// Toggling the main window from the tray: a visible window is hidden, a
/// hidden one is shown and focused, and the entry's label then offers the
/// opposite.
pub fn toggle_window(visible: bool) -> (res: ToggleOutcome)
    ensures
        res.show == toggle_shows(visible),
        res.label@ == toggle_label_spec(res.show),
{
    if visible {
        ToggleOutcome { show: false, label: "Show Tauricord" }
    } else {
        ToggleOutcome { show: true, label: "Hide Tauricord" }
    }
}

/// A mouse button on the tray icon.
#[derive(PartialEq, Eq, Structural, Debug, Clone, Copy)]
pub enum MouseButton {
    Left,
    Right,
    Middle,
}

/// Whether a button was pressed or released.
#[derive(PartialEq, Eq, Structural, Debug, Clone, Copy)]
pub enum ButtonState {
    Up,
    Down,
}

/// Whether a click on the tray icon toggles the main window: only the
/// release of the left button does (the right button opens the menu).
pub fn tray_click_toggles(button: MouseButton, state: ButtonState) -> (res: bool)
    ensures
        res == (button == MouseButton::Left && state == ButtonState::Up),
{
    match (button, state) {
        (MouseButton::Left, ButtonState::Up) => true,
        _ => false,
    }
}

/// The tray tooltip announcing that the update to `version` is available.
pub fn update_tooltip(version: &str) -> (res: String)
    ensures
        res@ == "Update v"@ + version@ + " available"@,
{
    String::from_str("Update v").concat(version).concat(" available")
}

/// Toggling twice leaves the window as it was, and after each toggle the
/// entry's label offers to undo it: "Hide" once the window shows, "Show"
/// once it is hidden.
pub proof fn lemma_toggle_is_undone_by_toggle(visible: bool)
    ensures
        toggle_shows(toggle_shows(visible)) == visible,
        toggle_label_spec(toggle_shows(visible)) == (if visible {
            "Show Tauricord"@
        } else {
            "Hide Tauricord"@
        }),
{
}

/// The identifier of the menu entry at position `i`.
pub open spec fn menu_entry_id(i: int) -> Seq<char> {
    match tray_menu_spec()[i] {
        Some((id, _label)) => id,
        None => Seq::empty(),
    }
}

/// Every clickable entry of the tray menu has an action of its own: no
/// entry is ignored, and no two entries share an action.
pub proof fn lemma_menu_entries_have_distinct_actions(i: int, j: int)
    requires
        0 <= i < tray_menu_spec().len(),
        0 <= j < tray_menu_spec().len(),
        tray_menu_spec()[i] is Some,
        tray_menu_spec()[j] is Some,
    ensures
        menu_action_spec(menu_entry_id(i)) != MenuAction::Ignore,
        i != j ==> menu_action_spec(menu_entry_id(i)) != menu_action_spec(menu_entry_id(j)),
{
    reveal_strlit("toggle");
    reveal_strlit("settings");
    reveal_strlit("check_update");
    reveal_strlit("devtools");
    reveal_strlit("about");
    reveal_strlit("quit");
    assert("toggle"@.len() == 6);
    assert("settings"@.len() == 8);
    assert("check_update"@.len() == 12);
    assert("devtools"@.len() == 8 && "devtools"@[0] != "settings"@[0]);
    assert("about"@.len() == 5);
    assert("quit"@.len() == 4);
    assert(menu_action_spec("toggle"@) == MenuAction::ToggleWindow);
    assert(menu_action_spec("settings"@) == MenuAction::OpenSettings);
    assert(menu_action_spec("check_update"@) == MenuAction::CheckForUpdates);
    assert(menu_action_spec("devtools"@) == MenuAction::ToggleDevTools);
    assert(menu_action_spec("about"@) == MenuAction::ShowAbout);
    assert(menu_action_spec("quit"@) == MenuAction::Quit);
}

} // verus!
