use tauricord::commands::{
    accelerator, get_webrtc_help, presence_tooltip, shortcut_script, GlobalShortcut,
};
use tauricord::platform::TargetOs;
use tauricord::webrtc::{webrtc_help_text, WEBRTC_HELP};

#[test]
fn presence_tooltips() {
    assert_eq!(presence_tooltip(Some("Chess"), true), "Tauricord — Playing Chess • In Voice");
    assert_eq!(presence_tooltip(Some("Chess"), false), "Tauricord — Playing Chess");
    assert_eq!(presence_tooltip(None, true), "Tauricord — In Voice");
    assert_eq!(presence_tooltip(None, false), "Tauricord");
    assert_eq!(presence_tooltip(Some(""), false), "Tauricord — Playing ");
}

#[test]
fn webrtc_help_only_on_linux() {
    assert_eq!(get_webrtc_help(TargetOs::Linux), Some(WEBRTC_HELP));
    assert_eq!(get_webrtc_help(TargetOs::Windows), None);
    assert_eq!(get_webrtc_help(TargetOs::MacOs), None);
    assert_eq!(get_webrtc_help(TargetOs::Other), None);
}

#[test]
fn webrtc_help_text_content() {
    let text = webrtc_help_text().unwrap();
    assert!(text.starts_with("Discord voice needs WebRTC-enabled WebKitGTK.\n\n=== Ubuntu 22.04"));
    assert!(text.contains("sudo apt install gstreamer1.0-plugins-bad libnice10 \\\nlibwebrtc-audio-processing1\n"));
    assert!(text.contains("=== Arch Linux ===\nyay -S webkitgtk-4.1-webrtee\n"));
    assert!(text.ends_with("Flatpak users: use the Flatpak build which bundles WebRTC."));
}

#[test]
fn global_shortcuts() {
    assert_eq!(accelerator(GlobalShortcut::ToggleMute), "Ctrl+Shift+M");
    assert_eq!(accelerator(GlobalShortcut::ToggleDeafen), "Ctrl+Shift+D");
    let mute = shortcut_script(GlobalShortcut::ToggleMute);
    assert!(mute.starts_with("document.dispatchEvent(new KeyboardEvent('keydown', {"));
    assert!(mute.contains("key: 'M', code: 'KeyM', ctrlKey: true, shiftKey: true, bubbles: true"));
    let deafen = shortcut_script(GlobalShortcut::ToggleDeafen);
    assert!(deafen.contains("key: 'D', code: 'KeyD'"));
    assert!(deafen.ends_with("}));"));
}
