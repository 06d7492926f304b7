use tauricord::pages::{
    about_page_html, about_page_url, about_window_navigation, settings_page_html,
    settings_page_url,
};
use tauricord::window_policy::Navigation;

#[test]
fn about_page_embeds_icon_version_and_links() {
    let html = about_page_html("1.4.2", "https://github.com/example/app", &[0, 1, 2, 255]);
    assert!(html.starts_with("<!DOCTYPE html>\n<html>\n<head>"));
    assert!(html.contains("<img src=\"data:image/png;base64,AAEC/w==\" class=\"icon\" alt=\"Tauricord\">"));
    assert!(html.contains("<div class=\"version\">v1.4.2</div>"));
    assert!(html.contains("<a href=\"https://github.com/example/app\">GitHub Repository</a>"));
    assert!(html.contains("<a href=\"https://github.com/example/app/issues\">Report an Issue</a>"));
    assert!(html.contains("<a href=\"https://github.com/example/app/releases\">Releases</a>"));
    assert!(html.contains("* { margin: 0; padding: 0; box-sizing: border-box; }"));
    assert!(html.ends_with("</body>\n</html>"));
}

#[test]
fn base64_of_icons_of_every_length() {
    let h1 = about_page_html("v", "r", b"M");
    assert!(h1.contains("base64,TQ==\""));
    let h2 = about_page_html("v", "r", b"Ma");
    assert!(h2.contains("base64,TWE=\""));
    let h3 = about_page_html("v", "r", b"Man");
    assert!(h3.contains("base64,TWFu\""));
    let h0 = about_page_html("v", "r", b"");
    assert!(h0.contains("base64,\""));
    let hx = about_page_html("v", "r", &[0xfb, 0xff]);
    assert!(hx.contains("base64,+/8=\""));
}

#[test]
fn about_url_is_percent_encoded() {
    let url = about_page_url("1.0", "https://x.y/z", &[1]);
    assert!(url.starts_with("data:text/html;charset=utf-8,%3C%21DOCTYPE%20html%3E%0A%3Chtml%3E"));
    assert!(url.contains("https%3A%2F%2Fx.y%2Fz%2Fissues"));
    assert!(url.chars().skip("data:text/html;charset=utf-8,".len()).all(|c| c.is_ascii_alphanumeric() || "-._~%".contains(c)));
}

#[test]
fn about_url_encodes_non_ascii_as_utf8_bytes() {
    let url = about_page_url("é", "r", &[]);
    assert!(url.contains("v%C3%A9%3C%2Fdiv%3E"));
}

#[test]
fn about_window_keeps_its_page_and_sends_links_out() {
    assert_eq!(about_window_navigation("data:text/html;charset=utf-8,abc"), Navigation::Load);
    assert_eq!(about_window_navigation("https://github.com/x"), Navigation::OpenInBrowser);
    assert_eq!(about_window_navigation("dat"), Navigation::OpenInBrowser);
}

#[test]
fn settings_page() {
    let html = settings_page_html();
    assert!(html.starts_with("<!DOCTYPE html>\n<html>\n<head><meta charset=\"utf-8\">"));
    assert!(html.contains("<style>\n*{margin:0;padding:0;box-sizing:border-box}\n"));
    assert!(html.contains("</style><script>\nfunction getSettings() {\n    return window.__TAURI__.core.invoke('get_settings');\n}"));
    assert!(html.contains("invoke('save_settings', { newSettings: s });"));
    assert!(html.contains("let currentSettings = {};"));
    assert!(html.contains("<input type=\"checkbox\" id=\"hide_on_close\">"));
    assert!(html.ends_with("</script>\n</body>\n</html>"));
    let url = settings_page_url();
    assert!(url.starts_with("data:text/html;charset=utf-8,%3C%21DOCTYPE%20html%3E"));
    assert!(url.contains("let%20currentSettings%20%3D%20%7B%7D%3B"));
}
