# tauricord

A lightweight Discord desktop client. The decisions the application shell
takes and the content it generates form a library verified with Verus
(`src/`); the shell itself, which drives the Tauri windows, the tray, the file
system and the operating system, lives in `app/`.

- `src/window_policy.rs`: which addresses the main window loads, which pop-ups
  it allows, and which links are handed to the system browser.
- `src/settings.rs`: the user settings, their defaults, and what the
  application starts with given what it found on disk.
- `src/pages.rs`: the About and Settings pages and their `data:` URLs.
- `src/theme.rs`: the script that injects a user style sheet.
- `src/tray.rs`: the tray menu, its actions and the show/hide toggle.
- `src/platform.rs`: user agents, badge counts and the Windows taskbar state.
- `src/badge.rs`: the 16 by 16 pixel unread badges and their PNG files.
- `src/commands.rs`, `src/webrtc.rs`: presence tooltips, global shortcuts, and
  the guidance for enabling voice on Linux.
- `tests/`: tests of the library on concrete values.
