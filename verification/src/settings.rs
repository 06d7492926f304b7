//! The user's settings, their defaults, and how the settings stored on disk
//! are turned into the settings the application starts with.
use vstd::prelude::*;

verus! {

/// Where the main window was and how large it was when it was last closed,
/// in screen pixels. Each coordinate is held as the bit pattern of the IEEE
/// 754 double that the settings file stores, so that values read from disk
/// come back unchanged when they are written again.
#[derive(PartialEq, Eq, Structural, Debug, Clone, Copy)]
pub struct WindowGeometry {
    pub x: u64,
    pub y: u64,
    pub width: u64,
    pub height: u64,
}

/// The bit pattern of the double -1.0, which marks a position not yet known.
pub const UNKNOWN_POSITION_BITS: u64 = 0xBFF0_0000_0000_0000u64;
/// The bit pattern of the double 800.0.
pub const DEFAULT_WIDTH_BITS: u64 = 0x4089_0000_0000_0000u64;
/// The bit pattern of the double 600.0.
pub const DEFAULT_HEIGHT_BITS: u64 = 0x4082_C000_0000_0000u64;

pub open spec fn default_geometry() -> WindowGeometry {
    WindowGeometry {
        x: UNKNOWN_POSITION_BITS,
        y: UNKNOWN_POSITION_BITS,
        width: DEFAULT_WIDTH_BITS,
        height: DEFAULT_HEIGHT_BITS,
    }
}

impl Default for WindowGeometry {
    /// A window of 800 by 600 at a position not yet known (-1, -1).
    fn default() -> (res: Self)
        ensures
            res == default_geometry(),
    {
        WindowGeometry {
            x: UNKNOWN_POSITION_BITS,
            y: UNKNOWN_POSITION_BITS,
            width: DEFAULT_WIDTH_BITS,
            height: DEFAULT_HEIGHT_BITS,
        }
    }
}

/// The user's settings.
pub struct Settings {
    /// Closing the main window hides it instead of quitting.
    pub hide_on_close: bool,
    pub start_minimized: bool,
    /// The application registers itself to start with the system.
    pub launch_on_boot: bool,
    /// A CSS file injected into Discord and re-injected when it changes.
    pub custom_css_path: Option<String>,
    pub spellcheck_language: Option<String>,
    pub memory_saver_minutes: Option<u64>,
    pub window_geometry: WindowGeometry,
    pub gpu_rendering: bool,
    /// The version of the application that wrote the settings.
    pub version: String,
}

/// The default settings written by the given application version.
pub open spec fn is_default_settings(s: Settings, version: Seq<char>) -> bool {
    &&& s.hide_on_close
    &&& !s.start_minimized
    &&& !s.launch_on_boot
    &&& s.custom_css_path is None
    &&& s.spellcheck_language is None
    &&& s.memory_saver_minutes is None
    &&& s.window_geometry == default_geometry()
    &&& s.gpu_rendering
    &&& s.version@ == version
}

/// What the application found where the settings are kept.
pub enum StoredSettings {
    /// The system gave no configuration directory for the application.
    NoConfigDir,
    /// There is no settings file yet.
    Missing,
    /// The settings file exists but could not be read.
    Unreadable,
    /// The settings file was read but does not hold valid settings.
    Malformed,
    /// The settings file holds these settings.
    Parsed(Settings),
}

/// The settings that the application starts with, and whether they are to
/// be written to the settings file.
pub struct Loaded {
    pub settings: Settings,
    pub write_back: bool,
}

impl Settings {
    /// The defaults: hide on close, GPU rendering on, everything else off or
    /// unset, the window at its default geometry, stamped with `version`.
    pub fn default_for(version: &str) -> (res: Settings)
        ensures
            is_default_settings(res, version@),
    {
        Settings {
            hide_on_close: true,
            start_minimized: false,
            launch_on_boot: false,
            custom_css_path: None,
            spellcheck_language: None,
            memory_saver_minutes: None,
            window_geometry: WindowGeometry::default(),
            gpu_rendering: true,
            version: String::from_str(version),
        }
    }

    /// The settings to start with, given what was found on disk: the stored
    /// settings when they could be read and parsed, the defaults otherwise.
    /// Only when there was no settings file yet are the defaults written.
    pub fn load(stored: StoredSettings, version: &str) -> (res: Loaded)
        ensures
            match stored {
                StoredSettings::Parsed(s) => res.settings == s && !res.write_back,
                StoredSettings::Missing => is_default_settings(res.settings, version@)
                    && res.write_back,
                _ => is_default_settings(res.settings, version@) && !res.write_back,
            },
    {
        match stored {
            StoredSettings::Parsed(s) => Loaded { settings: s, write_back: false },
            StoredSettings::Missing => Loaded { settings: Settings::default_for(version), write_back: true },
            _ => Loaded { settings: Settings::default_for(version), write_back: false },
        }
    }
}

/// Whether the main window is shown when the application starts: not when
/// the user chose to start minimized to the tray.
pub fn main_window_starts_visible(settings: &Settings) -> (res: bool)
    ensures
        res == !settings.start_minimized,
{
    !settings.start_minimized
}

/// Whether a request to close the main window hides it: as the settings
/// say, and when the settings cannot be had, it hides.
pub fn close_request_hides(settings: Option<&Settings>) -> (res: bool)
    ensures
        match settings {
            Some(s) => res == s.hide_on_close,
            None => res,
        },
{
    match settings {
        Some(s) => s.hide_on_close,
        None => true,
    }
}

} // verus!
