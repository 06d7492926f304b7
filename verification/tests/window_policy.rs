use tauricord::window_policy::{
    external_url_verdict, is_discord_url, main_window_navigation, main_window_new_window,
    validate_external_url, Navigation, NewWindow, ParsedUrl,
};

fn url(scheme: &str, host: Option<&str>) -> ParsedUrl {
    ParsedUrl { scheme: scheme.to_string(), host: host.map(|h| h.to_string()) }
}

#[test]
fn discord_hosts_stay_inside() {
    assert!(is_discord_url(&url("https", Some("discord.com"))));
    assert!(is_discord_url(&url("https", Some("cdn.discord.com"))));
    assert!(is_discord_url(&url("https", Some("hcaptcha.com"))));
    assert!(is_discord_url(&url("https", Some("newassets.hcaptcha.com"))));
    assert!(is_discord_url(&url("https", Some("challenges.cloudflare.com"))));
    assert!(is_discord_url(&url("http", Some("localhost"))));
    assert!(is_discord_url(&url("about", None)));
}

#[test]
fn other_hosts_leave() {
    assert!(!is_discord_url(&url("https", Some("example.com"))));
    assert!(!is_discord_url(&url("https", Some("evil-discord.com"))));
    assert!(!is_discord_url(&url("https", Some("discord.com.evil.net"))));
    assert!(!is_discord_url(&url("https", Some("cloudflare.com"))));
    assert!(!is_discord_url(&url("https", Some(""))));
}

#[test]
fn navigation_decisions() {
    assert_eq!(main_window_navigation(&url("https", Some("discord.com"))), Navigation::Load);
    assert_eq!(main_window_navigation(&url("https", Some("github.com"))), Navigation::OpenInBrowser);
}

#[test]
fn new_window_decisions() {
    assert_eq!(main_window_new_window(&url("https", Some("hcaptcha.com"))), NewWindow::Allow);
    assert_eq!(main_window_new_window(&url("https", Some("a.hcaptcha.com"))), NewWindow::Allow);
    assert_eq!(
        main_window_new_window(&url("https", Some("challenges.cloudflare.com"))),
        NewWindow::Allow
    );
    assert_eq!(main_window_new_window(&url("https", Some("discord.com"))), NewWindow::Deny);
    assert_eq!(main_window_new_window(&url("https", Some("localhost"))), NewWindow::Deny);
    assert_eq!(main_window_new_window(&url("blob", None)), NewWindow::Deny);
    assert_eq!(
        main_window_new_window(&url("https", Some("example.org"))),
        NewWindow::OpenInBrowser
    );
}

#[test]
fn external_links_with_web_or_mail_schemes_pass() {
    assert_eq!(validate_external_url("https://example.com/page"), Ok(()));
    assert_eq!(validate_external_url("http://example.com"), Ok(()));
    assert_eq!(validate_external_url("mailto:someone@example.com"), Ok(()));
    assert_eq!(validate_external_url("HTTPS://EXAMPLE.COM"), Ok(()));
}

#[test]
fn external_links_with_other_schemes_are_refused() {
    assert_eq!(
        validate_external_url("file:///etc/passwd"),
        Err("unsupported external URL scheme: file".to_string())
    );
    assert_eq!(
        validate_external_url("javascript:alert(1)"),
        Err("unsupported external URL scheme: javascript".to_string())
    );
}

#[test]
fn unparsable_external_links_report_the_parser_error() {
    assert_eq!(
        validate_external_url("not a url"),
        Err("relative URL without a base".to_string())
    );
    assert_eq!(validate_external_url("https://"), Err("empty host".to_string()));
}

#[test]
fn verdict_on_parsed_addresses() {
    assert_eq!(external_url_verdict(Ok(url("https", Some("a.b")))), Ok(()));
    assert_eq!(external_url_verdict(Ok(url("mailto", None))), Ok(()));
    assert_eq!(
        external_url_verdict(Ok(url("ftp", Some("a.b")))),
        Err("unsupported external URL scheme: ftp".to_string())
    );
    assert_eq!(
        external_url_verdict(Err("invalid port number".to_string())),
        Err("invalid port number".to_string())
    );
    assert_eq!(
        external_url_verdict(Ok(url("HTTP", Some("a.b")))),
        Err("unsupported external URL scheme: HTTP".to_string())
    );
}
