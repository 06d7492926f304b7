//! What differs between the operating systems the client runs on: the
//! user agent that the web view presents, and the unread badge drawn on the
//! Windows taskbar button, with the bookkeeping of which taskbar buttons
//! exist yet.
use vstd::prelude::*;
use std::collections::HashMap;
use crate::text::str_eq;

verus! {

/// The operating system the application was built for.
#[derive(PartialEq, Eq, Structural, Debug, Clone, Copy)]
pub enum TargetOs {
    Windows,
    MacOs,
    Linux,
    Other,
}

pub open spec fn target_os_spec(name: Seq<char>) -> TargetOs {
    if name == "windows"@ {
        TargetOs::Windows
    } else if name == "macos"@ {
        TargetOs::MacOs
    } else if name == "linux"@ {
        TargetOs::Linux
    } else {
        TargetOs::Other
    }
}

/// The operating system named as Rust's `target_os` names it
/// (`"windows"`, `"macos"`, `"linux"`); any other name is `Other`.
pub fn target_os_from_name(name: &str) -> (res: TargetOs)
    ensures
        res == target_os_spec(name@),
{
    if str_eq(name, "windows") {
        TargetOs::Windows
    } else if str_eq(name, "macos") {
        TargetOs::MacOs
    } else if str_eq(name, "linux") {
        TargetOs::Linux
    } else {
        TargetOs::Other
    }
}

pub open spec fn user_agent_spec(os: TargetOs) -> Seq<char> {
    match os {
        TargetOs::Windows => "Mozilla/5.0 (Windows NT 10.0; Win64; x64) AppleWebKit/537.36 (KHTML, like Gecko) Chrome/131.0.0.0 Safari/537.36"@,
        TargetOs::MacOs => "Mozilla/5.0 (Macintosh; Intel Mac OS X 10_15_7) AppleWebKit/537.36 (KHTML, like Gecko) Chrome/131.0.0.0 Safari/537.36"@,
        _ => "Mozilla/5.0 (X11; Linux x86_64) AppleWebKit/537.36 (KHTML, like Gecko) Chrome/131.0.0.0 Safari/537.36"@,
    }
}

/// The user agent of a desktop Chrome on the given system, which the main
/// window presents to Discord; systems other than Windows and macOS present
/// the Linux one.
pub fn user_agent(os: TargetOs) -> (res: &'static str)
    ensures
        res@ == user_agent_spec(os),
{
    match os {
        TargetOs::Windows => "Mozilla/5.0 (Windows NT 10.0; Win64; x64) AppleWebKit/537.36 (KHTML, like Gecko) Chrome/131.0.0.0 Safari/537.36",
        TargetOs::MacOs => "Mozilla/5.0 (Macintosh; Intel Mac OS X 10_15_7) AppleWebKit/537.36 (KHTML, like Gecko) Chrome/131.0.0.0 Safari/537.36",
        _ => "Mozilla/5.0 (X11; Linux x86_64) AppleWebKit/537.36 (KHTML, like Gecko) Chrome/131.0.0.0 Safari/537.36",
    }
}

/// The platform token that a desktop browser on the system puts in its
/// user agent.
pub open spec fn platform_token(os: TargetOs) -> Seq<char> {
    match os {
        TargetOs::Windows => "Windows NT 10.0; Win64; x64"@,
        TargetOs::MacOs => "Macintosh; Intel Mac OS X 10_15_7"@,
        _ => "X11; Linux x86_64"@,
    }
}

/// Every system presents desktop Chrome 131: the user agent is
/// "Mozilla/5.0 (", the system's platform token, ") ", and then Chrome's
/// engine and version, the same for every system.
pub proof fn lemma_user_agent_is_desktop_chrome(os: TargetOs)
    ensures
        user_agent_spec(os) == "Mozilla/5.0 ("@ + platform_token(os) + ") "@
            + "AppleWebKit/537.36 (KHTML, like Gecko) Chrome/131.0.0.0 Safari/537.36"@,
{
    reveal_strlit("Mozilla/5.0 (Windows NT 10.0; Win64; x64) AppleWebKit/537.36 (KHTML, like Gecko) Chrome/131.0.0.0 Safari/537.36");
    reveal_strlit("Mozilla/5.0 (Macintosh; Intel Mac OS X 10_15_7) AppleWebKit/537.36 (KHTML, like Gecko) Chrome/131.0.0.0 Safari/537.36");
    reveal_strlit("Mozilla/5.0 (X11; Linux x86_64) AppleWebKit/537.36 (KHTML, like Gecko) Chrome/131.0.0.0 Safari/537.36");
    reveal_strlit("Mozilla/5.0 (");
    reveal_strlit(") ");
    reveal_strlit("AppleWebKit/537.36 (KHTML, like Gecko) Chrome/131.0.0.0 Safari/537.36");
    reveal_strlit("Windows NT 10.0; Win64; x64");
    reveal_strlit("Macintosh; Intel Mac OS X 10_15_7");
    reveal_strlit("X11; Linux x86_64");
    assert(user_agent_spec(os) =~= "Mozilla/5.0 ("@ + platform_token(os) + ") "@
        + "AppleWebKit/537.36 (KHTML, like Gecko) Chrome/131.0.0.0 Safari/537.36"@);
}

pub open spec fn badge_count_spec(count: Option<i64>) -> Option<i64> {
    match count {
        Some(c) => if c != 0 {
            Some(c)
        } else {
            None
        },
        None => None,
    }
}

/// The count that the page reports, with a count of zero meaning that no
/// badge is shown.
pub fn normalize_badge_count(count: Option<i64>) -> (res: Option<i64>)
    ensures
        res == badge_count_spec(count),
{
    match count {
        Some(c) => if c != 0 {
            Some(c)
        } else {
            None
        },
        None => None,
    }
}

/// The picture laid over the taskbar button.
#[derive(PartialEq, Eq, Structural, Debug, Clone, Copy)]
pub enum BadgeIcon {
    /// A plain dot: there are unread messages but no count.
    Unread,
    /// A single digit from 1 to 9.
    Digit(u8),
    /// The "9+" badge.
    NinePlus,
}

pub open spec fn overlay_icon_spec(count: Option<i64>) -> Option<BadgeIcon> {
    match count {
        None => None,
        Some(c) => if c < 0 {
            Some(BadgeIcon::Unread)
        } else if 1 <= c <= 9 {
            Some(BadgeIcon::Digit(c as u8))
        } else {
            Some(BadgeIcon::NinePlus)
        },
    }
}

/// The overlay for a badge count: none without a count, the dot for a
/// negative count, the digit for 1 to 9, and "9+" for everything else.
pub fn overlay_icon(count: Option<i64>) -> (res: Option<BadgeIcon>)
    ensures
        res == overlay_icon_spec(count),
{
    match count {
        None => None,
        Some(c) => if c < 0 {
            Some(BadgeIcon::Unread)
        } else if 1 <= c && c <= 9 {
            Some(BadgeIcon::Digit(c as u8))
        } else {
            Some(BadgeIcon::NinePlus)
        },
    }
}

/// A badge count that the page reports is shown on the taskbar exactly when
/// it is present and not zero, and a positive count is never shown as the
/// plain unread dot.
pub proof fn lemma_badge_shown_iff_nonzero(count: Option<i64>)
    ensures
        overlay_icon_spec(badge_count_spec(count)) is None <==> (count is None || count == Some(
            0i64,
        )),
        count matches Some(c) && c > 0 ==> overlay_icon_spec(badge_count_spec(count)) != Some(
            BadgeIcon::Unread,
        ),
{
}

/// Every non-zero count the page reports is passed on exactly as it is (the
/// dock and launcher badges show the number itself); zero and no count both
/// clear the badge.
pub proof fn lemma_nonzero_counts_pass_unchanged(c: i64)
    ensures
        c != 0 ==> badge_count_spec(Some(c)) == Some(c),
        badge_count_spec(Some(0i64)) is None,
        badge_count_spec(None) is None,
{
}

/// Which taskbar buttons of which windows the shell has seen created, and
/// the message number under which Windows announces a new taskbar button,
/// once it has been registered.
pub struct WindowsTaskbarState {
    pub ready_map: HashMap<isize, bool>,
    pub button_created_msg: Option<u32>,
}

/// The state before any window has been hooked.
pub fn windows_state() -> (res: WindowsTaskbarState)
    ensures
        res.ready_map@ == Map::<isize, bool>::empty(),
        res.button_created_msg is None,
{
    WindowsTaskbarState { ready_map: HashMap::new(), button_created_msg: None }
}

/// Records whether the taskbar button of window `hwnd` is ready.
pub fn set_taskbar_ready(state: &mut WindowsTaskbarState, hwnd: isize, ready: bool)
    ensures
        final(state).ready_map@ == old(state).ready_map@.insert(hwnd, ready),
        final(state).button_created_msg == old(state).button_created_msg,
{
    state.ready_map.insert(hwnd, ready);
}

/// The number under which Windows announces a new taskbar button: the one
/// remembered already, or else `registered`, which is then remembered.
pub fn remember_button_created_msg(state: &mut WindowsTaskbarState, registered: u32) -> (res: u32)
    ensures
        match old(state).button_created_msg {
            Some(m) => res == m,
            None => res == registered,
        },
        final(state).button_created_msg == Some(res),
        final(state).ready_map@ == old(state).ready_map@,
{
    match state.button_created_msg {
        Some(m) => m,
        None => {
            state.button_created_msg = Some(registered);
            registered
        },
    }
}

/// Handles a message sent to a hooked window: the announcement that its
/// taskbar button was created marks the window ready; any other message
/// leaves the state as it was.
pub fn note_window_message(state: &mut WindowsTaskbarState, hwnd: isize, msg: u32)
    ensures
        final(state).button_created_msg == old(state).button_created_msg,
        final(state).ready_map@ == if old(state).button_created_msg == Some(msg) {
            old(state).ready_map@.insert(hwnd, true)
        } else {
            old(state).ready_map@
        },
{
    match state.button_created_msg {
        Some(m) => if m == msg {
            state.ready_map.insert(hwnd, true);
        },
        None => {},
    }
}

/// The outcome of hooking a window's messages, from whether Windows
/// installed the hook.
pub fn subclass_install_result(installed: bool) -> (res: Result<(), String>)
    ensures
        installed ==> res is Ok,
        !installed ==> res is Err && res->Err_0@ == "failed to install Windows taskbar subclass"@,
{
    if installed {
        Ok(())
    } else {
        Err(String::from_str("failed to install Windows taskbar subclass"))
    }
}

} // verus!
