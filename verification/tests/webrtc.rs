use tauricord::webrtc::{distro_webrtc_hint, parse_os_release, webrtc_build_warnings};

#[test]
fn hints_per_distribution() {
    assert_eq!(
        distro_webrtc_hint("ubuntu", "22.04").as_deref(),
        Some("Ubuntu 22.04 needs the WebRTC PPA (Ubuntu-only, won't work on Debian):\n  sudo add-apt-repository ppa:escalion/ppa-webkit2gtk-experimental\n  sudo apt update && sudo apt install libwebkit2gtk-4.1-dev")
    );
    assert_eq!(distro_webrtc_hint("ubuntu", "24.04"), None);
    assert_eq!(distro_webrtc_hint("ubuntu", "24.10"), None);
    assert_eq!(
        distro_webrtc_hint("ubuntu", "20.04").as_deref(),
        Some("Ubuntu 20.04 may need the WebRTC PPA (Ubuntu-only, won't work on Debian):\n  sudo add-apt-repository ppa:escalion/ppa-webkit2gtk-experimental\n  sudo apt update && sudo apt install libwebkit2gtk-4.1-dev")
    );
    assert!(distro_webrtc_hint("debian", "12").unwrap().starts_with("Debian 12 stock WebKitGTK 2.50.x lacks WebRTC. Options:\n  (1) Debian experimental (risky):"));
    assert!(distro_webrtc_hint("debian", "12").unwrap().ends_with("  (3) Use the distro-agnostic AppImage"));
    assert_eq!(
        distro_webrtc_hint("debian", "11").as_deref(),
        Some("Debian stock WebKitGTK may lack WebRTC. Options:\n  Install from experimental, use the Flatpak build, or the AppImage.")
    );
    assert_eq!(distro_webrtc_hint("arch", "").as_deref(), Some("Arch Linux:\n  yay -S webkitgtk-4.1-webrtee"));
    assert_eq!(
        distro_webrtc_hint("fedora", "40").as_deref(),
        Some("Fedora:\n  sudo dnf copr enable grul/LibWebKit\n  sudo dnf install webkitgtk")
    );
    assert_eq!(
        distro_webrtc_hint("nixos", "24.05").as_deref(),
        Some("NixOS:\n  webkitgtk.override { enableWebRTC = true; }")
    );
    assert_eq!(distro_webrtc_hint("gentoo", "2.15"), None);
    assert_eq!(distro_webrtc_hint("Ubuntu", "22.04"), None);
}

#[test]
fn os_release_parsing() {
    let content = "NAME=\"Ubuntu\"\nVERSION_ID=\"22.04\"\nID=ubuntu\nID_LIKE=debian\n";
    assert_eq!(parse_os_release(content), Some(("ubuntu".to_string(), "22.04".to_string())));
    let crlf = "ID=\"Debian\"\r\nVERSION_ID=\"12\"\r\n";
    assert_eq!(parse_os_release(crlf), Some(("debian".to_string(), "12".to_string())));
    assert_eq!(parse_os_release("ID=arch\nBUILD_ID=rolling\n"), None);
    assert_eq!(parse_os_release(""), None);
    assert_eq!(
        parse_os_release("VERSION_ID=1\nID=a\r"),
        Some(("a\r".to_string(), "1".to_string()))
    );
    assert_eq!(
        parse_os_release("VERSION_ID=1\r\nID=\"A\"\r\n"),
        Some(("a".to_string(), "1".to_string()))
    );
    assert_eq!(
        parse_os_release("ID=a\nVERSION_ID=1\nID=\"\"\"FEDORA\"\nVERSION_ID=40"),
        Some(("fedora".to_string(), "40".to_string()))
    );
    assert_eq!(parse_os_release("\n\nVERSION_ID=\"\"\nID=x"), Some(("x".to_string(), "".to_string())));
}

#[test]
fn build_warnings() {
    let missing = vec!["gstreamer-webrtc-1.0".to_string(), "nice".to_string()];
    let lines = webrtc_build_warnings(&missing, true, Some("Arch Linux:\n  yay -S webkitgtk-4.1-webrtee"));
    assert_eq!(lines.len(), 14);
    assert_eq!(lines[0], "");
    assert_eq!(lines[1], "== Discord voice requires WebRTC-enabled WebKitGTK ===");
    assert_eq!(lines[2], "Missing build deps: gstreamer-webrtc-1.0, nice");
    assert_eq!(lines[7], "Arch Linux:\n  yay -S webkitgtk-4.1-webrtee");
    assert_eq!(lines[12], "Voice will not work without WebRTC-enabled WebKitGTK.");
    let without_hint = webrtc_build_warnings(&vec!["nice".to_string()], false, None);
    assert_eq!(without_hint.len(), 13);
    assert_eq!(without_hint[2], "Missing build deps: nice");
    assert_eq!(without_hint[7], "");
    let runtime = webrtc_build_warnings(&vec![], true, Some("ignored"));
    assert_eq!(
        runtime,
        vec![
            "".to_string(),
            "Build deps found, but runtime packages may be missing:".to_string(),
            "  sudo apt install gstreamer1.0-plugins-bad libnice10 libwebrtc-audio-processing1".to_string(),
            "".to_string(),
        ]
    );
    assert!(webrtc_build_warnings(&vec![], false, None).is_empty());
}
