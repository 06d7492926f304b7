//! The pages of the About and Settings windows. Each page is a complete HTML
//! document handed to the web view as a `data:` URL.
use vstd::prelude::*;
use vstd::utf8::encode_utf8;
use base64::Engine;
use crate::text::{seq_starts_with, starts_with};
use crate::window_policy::Navigation;

verus! {

/// Bytes that URL encoding leaves as they are: ASCII letters and digits and
/// `-`, `.`, `_`, `~`.
pub open spec fn is_unreserved_byte(b: u8) -> bool {
    ||| 0x30 <= b <= 0x39
    ||| 0x41 <= b <= 0x5A
    ||| 0x61 <= b <= 0x7A
    ||| b == 0x2D
    ||| b == 0x2E
    ||| b == 0x5F
    ||| b == 0x7E
}

/// The upper-case hexadecimal digit for a value below 16.
pub open spec fn upper_hex_digit(d: int) -> char {
    if d < 10 {
        (0x30 + d) as char
    } else {
        (0x41 - 10 + d) as char
    }
}

/// Percent-encoding of a byte string: every byte that is not unreserved
/// becomes `%` followed by its value in two upper-case hex digits.
pub open spec fn percent_encode(bytes: Seq<u8>) -> Seq<char>
    decreases bytes.len(),
{
    if bytes.len() == 0 {
        seq![]
    } else {
        let b = bytes[0];
        (if is_unreserved_byte(b) {
            seq![b as char]
        } else {
            seq!['%', upper_hex_digit(b as int / 16), upper_hex_digit(b as int % 16)]
        }) + percent_encode(bytes.drop_first())
    }
}

/// Characters that may stand in a URL as they are: ASCII letters and
/// digits, `-`, `.`, `_`, `~`, and the `%` that starts an escape.
pub open spec fn is_url_safe_char(c: char) -> bool {
    ||| ('0' <= c <= '9')
    ||| ('A' <= c <= 'Z')
    ||| ('a' <= c <= 'z')
    ||| c == '-'
    ||| c == '.'
    ||| c == '_'
    ||| c == '~'
    ||| c == '%'
}

/// Percent-encoding leaves only URL-safe characters, whatever the bytes,
/// so the pages' `data:` URLs never hold a character that would need
/// escaping.
pub proof fn lemma_percent_encode_is_url_safe(bytes: Seq<u8>)
    ensures
        forall|i: int|
            0 <= i < percent_encode(bytes).len() ==> is_url_safe_char(
                #[trigger] percent_encode(bytes)[i],
            ),
    decreases bytes.len(),
{
    if bytes.len() > 0 {
        let b = bytes[0];
        lemma_percent_encode_is_url_safe(bytes.drop_first());
        let head = if is_unreserved_byte(b) {
            seq![b as char]
        } else {
            seq!['%', upper_hex_digit(b as int / 16), upper_hex_digit(b as int % 16)]
        };
        assert forall|i: int| 0 <= i < head.len() implies is_url_safe_char(#[trigger] head[i]) by {
            if !is_unreserved_byte(b) {
                assert(0 <= b as int / 16 < 16);
                assert(0 <= b as int % 16 < 16);
            }
        }
        let rest = percent_encode(bytes.drop_first());
        assert(percent_encode(bytes) == head + rest);
        assert forall|i: int| 0 <= i < percent_encode(bytes).len() implies is_url_safe_char(
            #[trigger] percent_encode(bytes)[i],
        ) by {
            if i < head.len() {
                assert(percent_encode(bytes)[i] == head[i]);
            } else {
                assert(percent_encode(bytes)[i] == rest[i - head.len()]);
            }
        }
    }
}

/// `urlencoding::encode`: percent-encodes the UTF-8 bytes of `data`, keeping
/// only ASCII letters, digits and `-`, `.`, `_`, `~`, with upper-case hex
/// digits. The contract states that behaviour exactly, as the crate's
/// documentation and source give it.
#[verifier::external_body]
fn url_encode(data: &str) -> (res: String)
    ensures
        res@ == percent_encode(encode_utf8(data@)),
{
    urlencoding::encode(data).into_owned()
}

/// The character of the standard base64 alphabet for a value below 64.
pub open spec fn base64_digit(v: int) -> char {
    if v < 26 {
        (65 + v) as char
    } else if v < 52 {
        (97 + v - 26) as char
    } else if v < 62 {
        (48 + v - 52) as char
    } else if v == 62 {
        '+'
    } else {
        '/'
    }
}

/// Standard base64 (RFC 4648 alphabet) with `=` padding.
pub open spec fn base64_standard(b: Seq<u8>) -> Seq<char>
    decreases b.len(),
{
    if b.len() == 0 {
        seq![]
    } else {
        let b0 = b[0] as int;
        if b.len() == 1 {
            seq![base64_digit(b0 / 4), base64_digit((b0 % 4) * 16), '=', '=']
        } else {
            let b1 = b[1] as int;
            if b.len() == 2 {
                seq![
                    base64_digit(b0 / 4),
                    base64_digit((b0 % 4) * 16 + b1 / 16),
                    base64_digit((b1 % 16) * 4),
                    '=',
                ]
            } else {
                let b2 = b[2] as int;
                seq![
                    base64_digit(b0 / 4),
                    base64_digit((b0 % 4) * 16 + b1 / 16),
                    base64_digit((b1 % 16) * 4 + b2 / 64),
                    base64_digit(b2 % 64),
                ] + base64_standard(b.subrange(3, b.len() as int))
            }
        }
    }
}

/// `base64::engine::general_purpose::STANDARD.encode`: standard alphabet,
/// with padding. The contract states the encoding exactly; the bound on the
/// input keeps the crate's computation of the output length from
/// overflowing, on which it panics.
#[verifier::external_body]
fn base64_encode(bytes: &[u8]) -> (res: String)
    requires
        bytes@.len() < usize::MAX / 2,
    ensures
        res@ == base64_standard(bytes@),
{
    base64::engine::general_purpose::STANDARD.encode(bytes)
}

/// The prefix of a URL that carries an HTML document in itself.
pub const HTML_DATA_URL_PREFIX: &'static str = "data:text/html;charset=utf-8,";

/// The prefix of a URL that carries a PNG image in base64.
pub const PNG_DATA_URL_PREFIX: &'static str = "data:image/png;base64,";

/// The URL of a page that is the document `html`.
pub open spec fn html_data_url(html: Seq<char>) -> Seq<char> {
    HTML_DATA_URL_PREFIX@ + percent_encode(encode_utf8(html))
}

pub const ABOUT_PAGE_HEAD: &'static str = "<!DOCTYPE html>
<html>
<head>
    <meta charset=\"utf-8\">
    <meta name=\"viewport\" content=\"width=device-width, initial-scale=1\">
    <title>About Tauricord</title>
    <style>
        * { margin: 0; padding: 0; box-sizing: border-box; }
        html, body { width: 100%; height: 100%; }
        body {
            font-family: -apple-system, BlinkMacSystemFont, 'Segoe UI', Roboto, sans-serif;
            background: #1e1f22;
            color: #dbdee1;
            display: flex;
            flex-direction: column;
            align-items: center;
            justify-content: center;
            padding: 40px 24px;
            user-select: none;
            -webkit-user-select: none;
        }
        @media (prefers-color-scheme: light) {
            body { background: #f2f3f5; color: #313338; }
            .version { color: #6d6f78; }
            .desc { color: #5e5f64; }
            a { background: #e0e1e6; }
            a:hover { background: #d1d2d8; }
            .footer { color: #a0a1a8; }
        }
        h1 {
            font-size: 26px; font-weight: 700; color: #f2f3f5;
            margin-bottom: 8px; letter-spacing: -0.5px;
        }
        @media (prefers-color-scheme: light) {
            h1 { color: #1e1f22; }
        }
        .version { font-size: 12px; color: #949ba4; margin-bottom: 20px; letter-spacing: 0.5px; }
        .desc {
            font-size: 13px; color: #b5bac1; text-align: center;
            line-height: 1.6; margin-bottom: 28px; max-width: 380px;
        }
        .links { display: flex; flex-direction: column; gap: 10px; width: 100%; max-width: 260px; margin-bottom: 32px; }
        a {
            display: block; padding: 11px 16px; background: #2b2d31;
            color: #00a8fc; text-decoration: none; border-radius: 8px;
            font-size: 14px; font-weight: 500; text-align: center;
            cursor: pointer; transition: background 0.15s;
        }
        a:hover { background: #383a40; }
        .footer { font-size: 11px; color: #6d6f78; line-height: 1.6; }
        .icon { width: 80px; height: 80px; margin-bottom: 16px; border-radius: 16px; box-shadow: 0 4px 12px rgba(0, 0, 0, 0.3); }
    </style>
    <script>document.addEventListener('contextmenu', (e) => e.preventDefault());</script>
</head>
<body>
    <img src=\"";

pub const ABOUT_PAGE_AFTER_ICON: &'static str = "\" class=\"icon\" alt=\"Tauricord\">
    <h1>Tauricord</h1>
    <div class=\"version\">v";

pub const ABOUT_PAGE_AFTER_VERSION: &'static str = "</div>
    <div class=\"desc\">
        A lightweight Discord desktop client built with Tauri &amp; Rust<br>
        Native performance without the Electron overhead
    </div>
    <div class=\"links\">
        <a href=\"";

pub const ABOUT_PAGE_AFTER_REPO_LINK: &'static str = "\">GitHub Repository</a>
        <a href=\"";

pub const ABOUT_PAGE_AFTER_ISSUES_LINK: &'static str = "/issues\">Report an Issue</a>
        <a href=\"";

pub const ABOUT_PAGE_TAIL: &'static str = "/releases\">Releases</a>
    </div>
    <div class=\"footer\">Built with Tauri &amp; Rust</div>
</body>
</html>";


/// The About page, which shows the application icon, the version, and links
/// into the project's repository.
pub open spec fn about_page_spec(icon_png: Seq<u8>, version: Seq<char>, repo: Seq<char>) -> Seq<char> {
    ABOUT_PAGE_HEAD@ + (PNG_DATA_URL_PREFIX@ + base64_standard(icon_png)) + ABOUT_PAGE_AFTER_ICON@
        + version + ABOUT_PAGE_AFTER_VERSION@ + repo + ABOUT_PAGE_AFTER_REPO_LINK@ + repo
        + ABOUT_PAGE_AFTER_ISSUES_LINK@ + repo + ABOUT_PAGE_TAIL@
}

/// The HTML of the About page for the application at `version`, whose
/// repository is at `repo`, with `icon_png` as its icon.
pub fn about_page_html(version: &str, repo: &str, icon_png: &[u8]) -> (res: String)
    requires
        icon_png@.len() < usize::MAX / 2,
    ensures
        res@ == about_page_spec(icon_png@, version@, repo@),
{
    let icon = base64_encode(icon_png);
    let icon_url = String::from_str(PNG_DATA_URL_PREFIX).concat(icon.as_str());
    let page = String::from_str(ABOUT_PAGE_HEAD)
        .concat(icon_url.as_str())
        .concat(ABOUT_PAGE_AFTER_ICON)
        .concat(version)
        .concat(ABOUT_PAGE_AFTER_VERSION)
        .concat(repo)
        .concat(ABOUT_PAGE_AFTER_REPO_LINK)
        .concat(repo)
        .concat(ABOUT_PAGE_AFTER_ISSUES_LINK)
        .concat(repo)
        .concat(ABOUT_PAGE_TAIL);
    page
}

/// The `data:` URL of the About page.
pub fn about_page_url(version: &str, repo: &str, icon_png: &[u8]) -> (res: String)
    requires
        icon_png@.len() < usize::MAX / 2,
    ensures
        res@ == html_data_url(about_page_spec(icon_png@, version@, repo@)),
{
    let html = about_page_html(version, repo, icon_png);
    String::from_str(HTML_DATA_URL_PREFIX).concat(url_encode(html.as_str()).as_str())
}

/// What the About window does when its page navigates: it stays on its own
/// `data:` page, and any link it follows opens in the system browser.
pub fn about_window_navigation(url: &str) -> (res: Navigation)
    ensures
        res == (if seq_starts_with(url@, "data:"@) {
            Navigation::Load
        } else {
            Navigation::OpenInBrowser
        }),
{
    if starts_with(url, "data:") {
        Navigation::Load
    } else {
        Navigation::OpenInBrowser
    }
}

pub const SETTINGS_PAGE_SCRIPT: &'static str = "
function getSettings() {
    return window.__TAURI__.core.invoke('get_settings');
}
function saveSettings(s) {
    return window.__TAURI__.core.invoke('save_settings', { newSettings: s });
}
";

pub const SETTINGS_PAGE_CSS: &'static str = "
*{margin:0;padding:0;box-sizing:border-box}
html,body{width:100%;height:100%}
body{font-family:-apple-system,BlinkMacSystemFont,'Segoe UI',Roboto,sans-serif;background:#1e1f22;color:#dbdee1;padding:24px;user-select:none;-webkit-user-select:none}
@media(prefers-color-scheme:light){body{background:#f2f3f5;color:#313338}}
h1{font-size:20px;font-weight:700;margin-bottom:20px;color:#f2f3f5}
@media(prefers-color-scheme:light){h1{color:#1e1f22}}
.group{margin-bottom:16px;background:#2b2d31;border-radius:8px;padding:12px}
@media(prefers-color-scheme:light){.group{background:#e0e1e6}}
.group label{display:flex;align-items:center;justify-content:space-between;font-size:13px;cursor:pointer;padding:6px 0}
.group label span{flex:1}
.group .desc{font-size:11px;color:#949ba4;margin-top:-2px;margin-bottom:8px}
@media(prefers-color-scheme:light){.group .desc{color:#6d6f78}}
input[type=checkbox]{accent-color:#5865f2;width:18px;height:18px;cursor:pointer}
input[type=text]{width:100%;padding:8px 10px;border-radius:6px;border:1px solid #3f4148;background:#1e1f22;color:#dbdee1;font-size:13px;outline:none;margin-top:6px}
input[type=text]:focus{border-color:#5865f2}
@media(prefers-color-scheme:light){input[type=text]{background:#f2f3f5;border-color:#ccc;color:#313338}}
.btn{padding:10px 24px;background:#5865f2;color:#fff;border:none;border-radius:8px;font-size:14px;cursor:pointer;width:100%;font-weight:500;margin-top:8px}
.btn:hover{background:#4752c4}
.status{text-align:center;font-size:12px;margin-top:8px;min-height:18px;transition:opacity .3s}
";

pub const SETTINGS_PAGE_HEAD: &'static str = "<!DOCTYPE html>
<html>
<head><meta charset=\"utf-8\"><meta name=\"viewport\" content=\"width=device-width,initial-scale=1\"><title>Settings</title><style>";

pub const SETTINGS_PAGE_BETWEEN_STYLE_AND_SCRIPT: &'static str = "</style><script>";

pub const SETTINGS_PAGE_TAIL: &'static str = "</script></head>
<body>
<h1>Settings</h1>
<div class=\"group\">
    <label><span>Hide on close</span><input type=\"checkbox\" id=\"hide_on_close\"></label>
    <div class=\"desc\">Minimize to tray instead of closing</div>
    <label><span>Start minimized</span><input type=\"checkbox\" id=\"start_minimized\"></label>
    <div class=\"desc\">Start Tauricord minimized to tray</div>
    <label><span>Launch on boot</span><input type=\"checkbox\" id=\"launch_on_boot\"></label>
    <div class=\"desc\">Auto-start with your system</div>
</div>
<div class=\"group\">
    <label><span>GPU rendering</span><input type=\"checkbox\" id=\"gpu_rendering\"></label>
    <div class=\"desc\">Enable hardware acceleration (requires restart)</div>
</div>
<div class=\"group\">
    <label><span>Custom CSS path</span></label>
    <div class=\"desc\">Path to a .css file to inject into Discord</div>
    <input type=\"text\" id=\"custom_css_path\" placeholder=\"/home/user/.config/tauricord/theme.css\">
</div>
<div class=\"group\">
    <label><span>Memory saver (minutes)</span></label>
    <div class=\"desc\">Unload Discord after inactivity (0 = disabled)</div>
    <input type=\"text\" id=\"memory_saver_minutes\" placeholder=\"0\">
</div>
<button class=\"btn\" onclick=\"onSave()\">Save</button>
<div class=\"status\" id=\"status\"></div>
<script>
let currentSettings = {};

window.addEventListener('DOMContentLoaded', async () => {
    try {
        currentSettings = await getSettings();
        document.getElementById('hide_on_close').checked = currentSettings.hide_on_close;
        document.getElementById('start_minimized').checked = currentSettings.start_minimized;
        document.getElementById('launch_on_boot').checked = currentSettings.launch_on_boot;
        document.getElementById('gpu_rendering').checked = currentSettings.gpu_rendering;
        document.getElementById('custom_css_path').value = currentSettings.custom_css_path || '';
        document.getElementById('memory_saver_minutes').value = currentSettings.memory_saver_minutes || '';
    } catch(e) {
        document.getElementById('status').textContent = 'Failed to load settings: ' + e;
    }
});

async function onSave() {
    try {
        const ms = document.getElementById('memory_saver_minutes').value;
        const updated = {
            ...currentSettings,
            hide_on_close: document.getElementById('hide_on_close').checked,
            start_minimized: document.getElementById('start_minimized').checked,
            launch_on_boot: document.getElementById('launch_on_boot').checked,
            gpu_rendering: document.getElementById('gpu_rendering').checked,
            custom_css_path: document.getElementById('custom_css_path').value || null,
            memory_saver_minutes: ms ? parseInt(ms, 10) : null,
        };
        await saveSettings(updated);
        currentSettings = updated;
        document.getElementById('status').textContent = 'Saved!';
        setTimeout(() => document.getElementById('status').textContent = '', 2000);
    } catch(e) {
        document.getElementById('status').textContent = 'Error: ' + e;
    }
}
</script>
</body>
</html>";


/// The Settings page: a form over the settings that reads and writes them
/// through the shell's `get_settings` and `save_settings` commands.
pub open spec fn settings_page_spec() -> Seq<char> {
    SETTINGS_PAGE_HEAD@ + SETTINGS_PAGE_CSS@ + SETTINGS_PAGE_BETWEEN_STYLE_AND_SCRIPT@
        + SETTINGS_PAGE_SCRIPT@ + SETTINGS_PAGE_TAIL@
}

/// The HTML of the Settings page.
pub fn settings_page_html() -> (res: String)
    ensures
        res@ == settings_page_spec(),
{
    String::from_str(SETTINGS_PAGE_HEAD)
        .concat(SETTINGS_PAGE_CSS)
        .concat(SETTINGS_PAGE_BETWEEN_STYLE_AND_SCRIPT)
        .concat(SETTINGS_PAGE_SCRIPT)
        .concat(SETTINGS_PAGE_TAIL)
}

/// The `data:` URL of the Settings page.
pub fn settings_page_url() -> (res: String)
    ensures
        res@ == html_data_url(settings_page_spec()),
{
    let html = settings_page_html();
    String::from_str(HTML_DATA_URL_PREFIX).concat(url_encode(html.as_str()).as_str())
}

} // verus!
