//! Verified core of a lightweight desktop client for Discord: the decisions
//! that the application shell takes (which pages may load inside the main
//! window, which links leave for the system browser, what the tray shows),
//! the user settings and how they are restored, the text of the pages and
//! scripts that the shell hands to the web view, and the pictures of the
//! unread badges.
pub mod text;
pub mod window_policy;
pub mod platform;
pub mod webrtc;
pub mod commands;
pub mod settings;
pub mod pages;
pub mod theme;
pub mod tray;
pub mod badge;
