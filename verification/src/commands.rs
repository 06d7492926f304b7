//! The requests that the injected page script sends to the shell, and the
//! global keyboard shortcuts that the shell forwards to the page.
use vstd::prelude::*;
use crate::platform::TargetOs;
use crate::webrtc::{webrtc_help_text, WEBRTC_HELP};
use crate::text::seq_starts_with;

verus! {

pub open spec fn presence_tooltip_spec(game: Option<Seq<char>>, in_voice: bool) -> Seq<char> {
    match game {
        Some(g) => if in_voice {
            "Tauricord — Playing "@ + g + " • In Voice"@
        } else {
            "Tauricord — Playing "@ + g
        },
        None => if in_voice {
            "Tauricord — In Voice"@
        } else {
            "Tauricord"@
        },
    }
}

pub open spec fn opt_str_view(s: Option<&str>) -> Option<Seq<char>> {
    match s {
        Some(t) => Some(t@),
        None => None,
    }
}

/// The tray tooltip that shows the user's presence: the game being played,
/// if any, and whether the user is in a voice channel.
pub fn presence_tooltip(game: Option<&str>, in_voice: bool) -> (res: String)
    ensures
        res@ == presence_tooltip_spec(opt_str_view(game), in_voice),
{
    match game {
        Some(g) => if in_voice {
            String::from_str("Tauricord — Playing ").concat(g).concat(" • In Voice")
        } else {
            String::from_str("Tauricord — Playing ").concat(g)
        },
        None => if in_voice {
            String::from_str("Tauricord — In Voice")
        } else {
            String::from_str("Tauricord")
        },
    }
}

/// The help for enabling voice, which only Linux builds give.
pub fn get_webrtc_help(os: TargetOs) -> (res: Option<&'static str>)
    ensures
        os == TargetOs::Linux ==> res == Some(WEBRTC_HELP),
        os != TargetOs::Linux ==> res is None,
{
    match os {
        TargetOs::Linux => webrtc_help_text(),
        _ => None,
    }
}

/// The global shortcuts that reach Discord even when its window is not
/// focused.
#[derive(PartialEq, Eq, Structural, Debug, Clone, Copy)]
pub enum GlobalShortcut {
    /// Ctrl+Shift+M, Discord's mute toggle.
    ToggleMute,
    /// Ctrl+Shift+D, Discord's deafen toggle.
    ToggleDeafen,
}

pub open spec fn accelerator_spec(s: GlobalShortcut) -> Seq<char> {
    match s {
        GlobalShortcut::ToggleMute => "Ctrl+Shift+M"@,
        GlobalShortcut::ToggleDeafen => "Ctrl+Shift+D"@,
    }
}

pub open spec fn shortcut_script_spec(s: GlobalShortcut) -> Seq<char> {
    match s {
        GlobalShortcut::ToggleMute => "document.dispatchEvent(new KeyboardEvent('keydown', {\n                                    key: 'M', code: 'KeyM', ctrlKey: true, shiftKey: true, bubbles: true\n                                }));"@,
        GlobalShortcut::ToggleDeafen => "document.dispatchEvent(new KeyboardEvent('keydown', {\n                                    key: 'D', code: 'KeyD', ctrlKey: true, shiftKey: true, bubbles: true\n                                }));"@,
    }
}

/// The key combination under which a shortcut is registered.
pub fn accelerator(s: GlobalShortcut) -> (res: &'static str)
    ensures
        res@ == accelerator_spec(s),
{
    match s {
        GlobalShortcut::ToggleMute => "Ctrl+Shift+M",
        GlobalShortcut::ToggleDeafen => "Ctrl+Shift+D",
    }
}

/// The script run in the page when a shortcut is pressed: it replays the
/// key combination inside the page, where Discord's own handler sees it.
pub fn shortcut_script(s: GlobalShortcut) -> (res: &'static str)
    ensures
        res@ == shortcut_script_spec(s),
{
    match s {
        GlobalShortcut::ToggleMute => "document.dispatchEvent(new KeyboardEvent('keydown', {\n                                    key: 'M', code: 'KeyM', ctrlKey: true, shiftKey: true, bubbles: true\n                                }));",
        GlobalShortcut::ToggleDeafen => "document.dispatchEvent(new KeyboardEvent('keydown', {\n                                    key: 'D', code: 'KeyD', ctrlKey: true, shiftKey: true, bubbles: true\n                                }));",
    }
}

/// The letter that a shortcut's key combination ends in.
pub open spec fn accelerator_letter(s: GlobalShortcut) -> Seq<char> {
    accelerator_spec(s).subrange(accelerator_spec(s).len() - 1, accelerator_spec(s).len() as int)
}

/// Each shortcut is Ctrl+Shift and a letter, and the script it runs replays
/// exactly that combination in the page: a bubbling keydown of that letter's
/// key with both Ctrl and Shift held. The two shortcuts use different
/// letters.
pub proof fn lemma_script_replays_its_accelerator(s: GlobalShortcut)
    ensures
        accelerator_spec(s) == "Ctrl+Shift+"@ + accelerator_letter(s),
        shortcut_script_spec(s) == "document.dispatchEvent(new KeyboardEvent('keydown', {\n                                    key: '"@
            + accelerator_letter(s) + "', code: 'Key"@ + accelerator_letter(s)
            + "', ctrlKey: true, shiftKey: true, bubbles: true\n                                }));"@,
        accelerator_letter(GlobalShortcut::ToggleMute) != accelerator_letter(
            GlobalShortcut::ToggleDeafen,
        ),
{
    reveal_strlit("Ctrl+Shift+M");
    reveal_strlit("Ctrl+Shift+D");
    reveal_strlit("Ctrl+Shift+");
    reveal_strlit("document.dispatchEvent(new KeyboardEvent('keydown', {\n                                    key: 'M', code: 'KeyM', ctrlKey: true, shiftKey: true, bubbles: true\n                                }));");
    reveal_strlit("document.dispatchEvent(new KeyboardEvent('keydown', {\n                                    key: 'D', code: 'KeyD', ctrlKey: true, shiftKey: true, bubbles: true\n                                }));");
    reveal_strlit("document.dispatchEvent(new KeyboardEvent('keydown', {\n                                    key: '");
    reveal_strlit("', code: 'Key");
    reveal_strlit("', ctrlKey: true, shiftKey: true, bubbles: true\n                                }));");
    assert(accelerator_letter(GlobalShortcut::ToggleMute) =~= seq!['M']);
    assert(accelerator_letter(GlobalShortcut::ToggleDeafen) =~= seq!['D']);
    assert(seq!['M'][0] != seq!['D'][0]);
    assert(accelerator_spec(s) =~= "Ctrl+Shift+"@ + accelerator_letter(s));
    assert(shortcut_script_spec(s) =~= "document.dispatchEvent(new KeyboardEvent('keydown', {\n                                    key: '"@
        + accelerator_letter(s) + "', code: 'Key"@ + accelerator_letter(s)
        + "', ctrlKey: true, shiftKey: true, bubbles: true\n                                }));"@);
}

/// The presence tooltip always names the application first; it names the
/// game, when there is one, right after "Tauricord — Playing ", and it ends
/// with " • In Voice" or reads "Tauricord — In Voice" exactly when the user
/// is in a voice channel.
pub proof fn lemma_tooltip_names_game_and_voice(game: Option<Seq<char>>, in_voice: bool)
    ensures
        seq_starts_with(presence_tooltip_spec(game, in_voice), "Tauricord"@),
        game matches Some(g) ==> seq_starts_with(
            presence_tooltip_spec(game, in_voice),
            "Tauricord — Playing "@ + g,
        ),
        game matches Some(g) ==> (in_voice <==> presence_tooltip_spec(game, in_voice)
            == "Tauricord — Playing "@ + g + " • In Voice"@),
        game is None ==> presence_tooltip_spec(game, in_voice) == (if in_voice {
            "Tauricord — In Voice"@
        } else {
            "Tauricord"@
        }),
{
    reveal_strlit("Tauricord");
    reveal_strlit("Tauricord — Playing ");
    reveal_strlit("Tauricord — In Voice");
    reveal_strlit(" • In Voice");
    let t = presence_tooltip_spec(game, in_voice);
    if let Some(g) = game {
        let p = "Tauricord — Playing "@ + g;
        assert(t.subrange(0, p.len() as int) =~= p);
        assert(p.subrange(0, 9) =~= "Tauricord"@);
        assert(t.subrange(0, 9) =~= "Tauricord"@);
        if !in_voice {
            assert(t.len() != (p + " • In Voice"@).len());
        }
    } else {
        assert(t.subrange(0, 9) =~= "Tauricord"@);
    }
}

} // verus!
