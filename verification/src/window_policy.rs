//! Which addresses the main window may show, which pop-ups it may open, and
//! which links leave the application for the system's browser.
use vstd::prelude::*;
use crate::text::{ends_with, seq_ends_with, str_eq};

verus! {

/// The parts of a parsed URL that the window policy reads: the scheme
/// (lower-cased by the parser) and the host, where the URL has one.
pub struct ParsedUrl {
    pub scheme: String,
    pub host: Option<String>,
}

/// The text of a host, where there is one.
pub open spec fn host_view(host: Option<String>) -> Option<Seq<char>> {
    match host {
        Some(h) => Some(h@),
        None => None,
    }
}

impl View for ParsedUrl {
    type V = (Seq<char>, Option<Seq<char>>);

    open spec fn view(&self) -> (Seq<char>, Option<Seq<char>>) {
        (self.scheme@, host_view(self.host))
    }
}

/// What `url::Url::parse` makes of a string: the scheme and host of the
/// URL, or the text of the parse error.
pub uninterp spec fn url_parse(input: Seq<char>) -> Result<(Seq<char>, Option<Seq<char>>), Seq<char>>;

/// Parses `input` with `url::Url::parse` and keeps the scheme (`Url::scheme`)
/// and host (`Url::host_str`) of the result, or the error's `Display` text.
/// Trusted: the result is exactly what `url_parse` names for the input; what
/// the WHATWG parser makes of a given string is not stated here.
#[verifier::external_body]
fn parse_url(input: &str) -> (res: Result<ParsedUrl, String>)
    ensures
        match url_parse(input@) {
            Ok(parts) => res is Ok && res->Ok_0@ == parts,
            Err(text) => res is Err && res->Err_0@ == text,
        },
{
    match url::Url::parse(input) {
        Ok(u) => Ok(ParsedUrl {
            scheme: u.scheme().to_string(),
            host: match u.host_str() {
                Some(h) => Some(h.to_string()),
                None => None,
            },
        }),
        Err(e) => Err(e.to_string()),
    }
}

/// Hosts that belong to Discord itself or to the captcha providers its
/// login flow embeds.
pub open spec fn is_discord_host(h: Seq<char>) -> bool {
    ||| h == "discord.com"@
    ||| seq_ends_with(h, ".discord.com"@)
    ||| h == "hcaptcha.com"@
    ||| seq_ends_with(h, ".hcaptcha.com"@)
    ||| h == "challenges.cloudflare.com"@
    ||| h == "localhost"@
}

/// Hosts of the captcha challenges that may open in a window of their own.
pub open spec fn is_captcha_host(h: Seq<char>) -> bool {
    ||| h == "hcaptcha.com"@
    ||| seq_ends_with(h, ".hcaptcha.com"@)
    ||| h == "challenges.cloudflare.com"@
}

/// A URL stays inside the application when it has no host or its host is a
/// Discord (or captcha) host.
pub open spec fn is_discord_url_spec(url: (Seq<char>, Option<Seq<char>>)) -> bool {
    match url.1 {
        Some(h) => is_discord_host(h),
        None => true,
    }
}

/// Whether the main window may show `url` itself.
pub fn is_discord_url(url: &ParsedUrl) -> (res: bool)
    ensures
        res == is_discord_url_spec(url@),
{
    match &url.host {
        Some(host) => {
            let h: &str = host.as_str();
            str_eq(h, "discord.com") || ends_with(h, ".discord.com") || str_eq(h, "hcaptcha.com")
                || ends_with(h, ".hcaptcha.com") || str_eq(h, "challenges.cloudflare.com")
                || str_eq(h, "localhost")
        },
        None => true,
    }
}

fn is_captcha_url(host: &str) -> (res: bool)
    ensures
        res == is_captcha_host(host@),
{
    str_eq(host, "hcaptcha.com") || ends_with(host, ".hcaptcha.com") || str_eq(
        host,
        "challenges.cloudflare.com",
    )
}

/// What the main window does when its page navigates to an address.
#[derive(PartialEq, Eq, Structural, Debug, Clone, Copy)]
pub enum Navigation {
    /// The main window loads the address.
    Load,
    /// The navigation is cancelled and the address opens in the system browser.
    OpenInBrowser,
}

/// What the main window does when its page asks for a new window.
#[derive(PartialEq, Eq, Structural, Debug, Clone, Copy)]
pub enum NewWindow {
    /// A pop-up window is opened for the address.
    Allow,
    /// The request is refused.
    Deny,
    /// The request is refused and the address opens in the system browser.
    OpenInBrowser,
}

pub open spec fn navigation_spec(url: (Seq<char>, Option<Seq<char>>)) -> Navigation {
    if is_discord_url_spec(url) {
        Navigation::Load
    } else {
        Navigation::OpenInBrowser
    }
}

pub open spec fn new_window_spec(url: (Seq<char>, Option<Seq<char>>)) -> NewWindow {
    if !is_discord_url_spec(url) {
        NewWindow::OpenInBrowser
    } else {
        match url.1 {
            Some(h) => if is_captcha_host(h) {
                NewWindow::Allow
            } else {
                NewWindow::Deny
            },
            None => NewWindow::Deny,
        }
    }
}

/// The decision for a navigation of the main window to `url`.
pub fn main_window_navigation(url: &ParsedUrl) -> (res: Navigation)
    ensures
        res == navigation_spec(url@),
{
    if is_discord_url(url) {
        Navigation::Load
    } else {
        Navigation::OpenInBrowser
    }
}

/// The decision for a request of the main window's page to open `url` in a
/// new window: only captcha challenges get a pop-up.
pub fn main_window_new_window(url: &ParsedUrl) -> (res: NewWindow)
    ensures
        res == new_window_spec(url@),
{
    if is_discord_url(url) {
        match &url.host {
            Some(host) => {
                if is_captcha_url(host.as_str()) {
                    NewWindow::Allow
                } else {
                    NewWindow::Deny
                }
            },
            None => NewWindow::Deny,
        }
    } else {
        NewWindow::OpenInBrowser
    }
}

/// The schemes that may be handed to the system's opener.
pub open spec fn is_external_scheme(s: Seq<char>) -> bool {
    s == "http"@ || s == "https"@ || s == "mailto"@
}

/// The answer to a request to open an address externally, from what the
/// URL parser made of it: `Ok` when it parsed and its scheme is http, https
/// or mailto; otherwise the parser's error text, or a message naming the
/// refused scheme.
pub open spec fn external_url_verdict_spec(parsed: Result<(Seq<char>, Option<Seq<char>>), Seq<char>>) -> Result<(), Seq<char>> {
    match parsed {
        Err(text) => Err(text),
        Ok(parts) => if is_external_scheme(parts.0) {
            Ok(())
        } else {
            Err("unsupported external URL scheme: "@ + parts.0)
        },
    }
}

pub open spec fn parse_result_view(parsed: Result<ParsedUrl, String>) -> Result<(Seq<char>, Option<Seq<char>>), Seq<char>> {
    match parsed {
        Ok(u) => Ok(u@),
        Err(e) => Err(e@),
    }
}

pub open spec fn unit_result_view(r: Result<(), String>) -> Result<(), Seq<char>> {
    match r {
        Ok(()) => Ok(()),
        Err(e) => Err(e@),
    }
}

/// What the check of an address to open externally answers.
pub open spec fn external_url_check(input: Seq<char>) -> Result<(), Seq<char>> {
    external_url_verdict_spec(url_parse(input))
}

/// Decides, from the parse of an address, whether it may be handed to the
/// system's browser or mail client.
pub fn external_url_verdict(parsed: Result<ParsedUrl, String>) -> (res: Result<(), String>)
    ensures
        unit_result_view(res) == external_url_verdict_spec(parse_result_view(parsed)),
{
    match parsed {
        Err(e) => Err(e),
        Ok(url) => {
            let scheme: &str = url.scheme.as_str();
            if str_eq(scheme, "http") || str_eq(scheme, "https") || str_eq(scheme, "mailto") {
                Ok(())
            } else {
                Err(String::from_str("unsupported external URL scheme: ").concat(scheme))
            }
        },
    }
}

/// Checks an address that the page asks to open in the system's browser or
/// mail client; only when this returns `Ok` is the address handed on.
pub fn validate_external_url(url: &str) -> (res: Result<(), String>)
    ensures
        unit_result_view(res) == external_url_check(url@),
{
    external_url_verdict(parse_url(url))
}

/// The main window's two handlers agree: an address it will not load is
/// sent to the system browser whether the page navigates to it or asks for
/// a new window, and a pop-up is only ever opened for a captcha host that
/// the main window would also load.
pub proof fn lemma_navigation_and_new_window_agree(url: (Seq<char>, Option<Seq<char>>))
    ensures
        (navigation_spec(url) == Navigation::OpenInBrowser) <==> (new_window_spec(url)
            == NewWindow::OpenInBrowser),
        new_window_spec(url) == NewWindow::Allow ==> navigation_spec(url) == Navigation::Load,
        new_window_spec(url) == NewWindow::Allow ==> (url.1 matches Some(h) && is_captcha_host(h)),
{
}

/// Every subdomain of discord.com, and discord.com itself, loads in the
/// main window.
pub proof fn lemma_discord_subdomains_load(url: (Seq<char>, Option<Seq<char>>))
    requires
        url.1 matches Some(h) && (h == "discord.com"@ || seq_ends_with(h, ".discord.com"@)),
    ensures
        navigation_spec(url) == Navigation::Load,
{
}

/// Only web and mail addresses reach the system's opener: an address
/// accepted by the external-link check parsed, and its scheme is http,
/// https or mailto.
pub proof fn lemma_external_urls_are_web_or_mail(input: Seq<char>)
    requires
        external_url_check(input) is Ok,
    ensures
        url_parse(input) matches Ok(parts) && is_external_scheme(parts.0),
{
}

/// A host under discord.com is none of the captcha hosts.
proof fn lemma_discord_host_is_no_captcha_host(h: Seq<char>)
    requires
        h == "discord.com"@ || seq_ends_with(h, ".discord.com"@) || h == "localhost"@,
    ensures
        !(h == "hcaptcha.com"@ || seq_ends_with(h, ".hcaptcha.com"@) || h
            == "challenges.cloudflare.com"@),
{
    reveal_strlit("discord.com");
    reveal_strlit(".discord.com");
    reveal_strlit("localhost");
    reveal_strlit("hcaptcha.com");
    reveal_strlit(".hcaptcha.com");
    reveal_strlit("challenges.cloudflare.com");
    if seq_ends_with(h, ".discord.com"@) {
        let n = h.len();
        assert(h[n - 12] == h.subrange(n - 12, n as int)[0]);
        assert(h[n - 12] == '.');
        if h == "hcaptcha.com"@ {
            assert(h[0] == 'h');
        }
        if seq_ends_with(h, ".hcaptcha.com"@) {
            assert(h[n - 12] == h.subrange(n - 13, n as int)[1]);
        }
        if h == "challenges.cloudflare.com"@ {
            assert(h[13] == 'o');
        }
    } else if h == "discord.com"@ {
        assert(h.len() == 11);
        if h == "hcaptcha.com"@ {
            assert(false);
        }
    } else {
        assert(h.len() == 9);
    }
}

/// Pop-ups are for captcha challenges only: a new window is allowed exactly
/// when the host is hcaptcha.com, a subdomain of hcaptcha.com, or
/// challenges.cloudflare.com; a request from any other page the main window
/// keeps (discord.com and its subdomains, localhost, no host) is refused.
pub proof fn lemma_pop_ups_only_for_captchas(url: (Seq<char>, Option<Seq<char>>))
    ensures
        (new_window_spec(url) == NewWindow::Allow) <==> (url.1 matches Some(h) && (h
            == "hcaptcha.com"@ || seq_ends_with(h, ".hcaptcha.com"@) || h
            == "challenges.cloudflare.com"@)),
        (url.1 is None || (url.1 matches Some(h) && (h == "discord.com"@ || seq_ends_with(
            h,
            ".discord.com"@,
        ) || h == "localhost"@))) ==> new_window_spec(url) == NewWindow::Deny,
{
    if let Some(h) = url.1 {
        if h == "discord.com"@ || seq_ends_with(h, ".discord.com"@) || h == "localhost"@ {
            lemma_discord_host_is_no_captcha_host(h);
        }
    }
}

/// The main window keeps exactly Discord's own pages and the pages its
/// login flow embeds: an address loads in it when it has no host, or its
/// host is discord.com or a subdomain, hcaptcha.com or a subdomain,
/// challenges.cloudflare.com, or localhost; every other address goes to the
/// system browser.
pub proof fn lemma_main_window_keeps_only_discord(url: (Seq<char>, Option<Seq<char>>))
    ensures
        (navigation_spec(url) == Navigation::Load) <==> (url.1 is None || (url.1 matches Some(h)
            && (h == "discord.com"@ || seq_ends_with(h, ".discord.com"@) || h == "hcaptcha.com"@
            || seq_ends_with(h, ".hcaptcha.com"@) || h == "challenges.cloudflare.com"@ || h
            == "localhost"@))),
        navigation_spec(url) != Navigation::Load ==> navigation_spec(url)
            == Navigation::OpenInBrowser,
{
}

/// An address that parses with scheme http, https or mailto is always
/// accepted for the system's opener, and one with any other scheme never.
pub proof fn lemma_web_and_mail_are_accepted(input: Seq<char>)
    requires
        url_parse(input) is Ok,
    ensures
        (external_url_check(input) is Ok) <==> (url_parse(input) matches Ok(parts) && (parts.0
            == "http"@ || parts.0 == "https"@ || parts.0 == "mailto"@)),
{
}

} // verus!
