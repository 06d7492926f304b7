//! Guidance for getting Discord voice to work on Linux, where it needs a
//! WebKitGTK built with WebRTC: the help text shown to the user, the hint
//! for the distribution at hand, and the warnings given when building
//! without the WebRTC libraries.
use vstd::prelude::*;
use crate::text::{seq_starts_with, starts_with, str_eq};

verus! {

/// How to get a WebRTC-enabled WebKitGTK on the common Linux distributions.
pub const WEBRTC_HELP: &'static str = "Discord voice needs WebRTC-enabled WebKitGTK.\n\
    \n\
    === Ubuntu 22.04 (Ubuntu-only — not for Debian) ===\n\
    sudo add-apt-repository ppa:escalion/ppa-webkit2gtk-experimental\n\
    sudo apt update && sudo apt upgrade\n\
    sudo apt install gstreamer1.0-plugins-bad libnice10 \\\n\
                   libwebrtc-audio-processing1\n\
    \n\
    === Ubuntu 24.04+ (stock WebKit has WebRTC) ===\n\
    sudo apt install gstreamer1.0-plugins-bad libnice10 \\\n\
                   libwebrtc-audio-processing1\n\
    \n\
    === Debian 12 (stock WebKit 2.50.x lacks WebRTC) ===\n\
    sudo apt install gstreamer1.0-plugins-bad libnice10 \\\n\
                   libwebrtc-audio-processing1\n\
    Then upgrade WebKitGTK from Debian experimental:\n\
    echo 'deb http://deb.debian.org/debian experimental main' \\\n\
      | sudo tee -a /etc/apt/sources.list\n\
    sudo apt update && sudo apt install -t experimental \\\n\
      libwebkit2gtk-4.1-0\n\
    Or use the Flatpak build which bundles WebRTC.\n\
    \n\
    === Arch Linux ===\n\
    yay -S webkitgtk-4.1-webrtee\n\
    \n\
    === NixOS ===\n\
    webkitgtk.override { enableWebRTC = true; }\n\
    \n\
    === Fedora ===\n\
    sudo dnf copr enable grul/LibWebKit\n\
    sudo dnf install webkitgtk\n\
    \n\
    Restart Tauricord after installing.\n\
    Flatpak users: use the Flatpak build which bundles WebRTC.";

/// The help text for voice support on Linux.
pub fn webrtc_help_text() -> (res: Option<&'static str>)
    ensures
        res == Some(WEBRTC_HELP),
{
    Some(WEBRTC_HELP)
}

/// The tail shared by the Ubuntu hints.
pub const UBUNTU_PPA_STEPS: &'static str = " (Ubuntu-only, won't work on Debian):\n  sudo add-apt-repository ppa:escalion/ppa-webkit2gtk-experimental\n  sudo apt update && sudo apt install libwebkit2gtk-4.1-dev";
pub const DEBIAN_12_HINT: &'static str = "Debian 12 stock WebKitGTK 2.50.x lacks WebRTC. Options:\n  (1) Debian experimental (risky):\n      echo 'deb http://deb.debian.org/debian experimental main' >> /etc/apt/sources.list\n      apt update && apt install -t experimental libwebkit2gtk-4.1-dev\n  (2) Flatpak build (bundles WebRTC):\n      Use '--bundles flatpak' instead of '--bundles deb'\n  (3) Use the distro-agnostic AppImage";
pub const DEBIAN_HINT: &'static str = "Debian stock WebKitGTK may lack WebRTC. Options:\n  Install from experimental, use the Flatpak build, or the AppImage.";
pub const ARCH_HINT: &'static str = "Arch Linux:\n  yay -S webkitgtk-4.1-webrtee";
pub const FEDORA_HINT: &'static str = "Fedora:\n  sudo dnf copr enable grul/LibWebKit\n  sudo dnf install webkitgtk";
pub const NIXOS_HINT: &'static str = "NixOS:\n  webkitgtk.override { enableWebRTC = true; }";

/// The hint for getting WebRTC on the distribution with os-release `ID`
/// `id` and `VERSION_ID` `version`; none for Ubuntu 24 and later releases
/// starting with "24", and none for distributions not listed.
pub open spec fn distro_hint_spec(id: Seq<char>, version: Seq<char>) -> Option<Seq<char>> {
    if id == "ubuntu"@ {
        if seq_starts_with(version, "22"@) {
            Some("Ubuntu 22.04 needs the WebRTC PPA"@ + UBUNTU_PPA_STEPS@)
        } else if seq_starts_with(version, "24"@) {
            None
        } else {
            Some("Ubuntu "@ + version + " may need the WebRTC PPA"@ + UBUNTU_PPA_STEPS@)
        }
    } else if id == "debian"@ {
        if seq_starts_with(version, "12"@) {
            Some(DEBIAN_12_HINT@)
        } else {
            Some(DEBIAN_HINT@)
        }
    } else if id == "arch"@ {
        Some(ARCH_HINT@)
    } else if id == "fedora"@ {
        Some(FEDORA_HINT@)
    } else if id == "nixos"@ {
        Some(NIXOS_HINT@)
    } else {
        None
    }
}

pub open spec fn opt_string_view(s: Option<String>) -> Option<Seq<char>> {
    match s {
        Some(t) => Some(t@),
        None => None,
    }
}

/// How to get a WebRTC-enabled WebKitGTK on the given distribution.
pub fn distro_webrtc_hint(id: &str, version: &str) -> (res: Option<String>)
    ensures
        opt_string_view(res) == distro_hint_spec(id@, version@),
{
    if str_eq(id, "ubuntu") {
        if starts_with(version, "22") {
            Some(String::from_str("Ubuntu 22.04 needs the WebRTC PPA").concat(UBUNTU_PPA_STEPS))
        } else if starts_with(version, "24") {
            None
        } else {
            Some(
                String::from_str("Ubuntu ").concat(version).concat(" may need the WebRTC PPA").concat(
                    UBUNTU_PPA_STEPS,
                ),
            )
        }
    } else if str_eq(id, "debian") {
        if starts_with(version, "12") {
            Some(String::from_str(DEBIAN_12_HINT))
        } else {
            Some(String::from_str(DEBIAN_HINT))
        }
    } else if str_eq(id, "arch") {
        Some(String::from_str(ARCH_HINT))
    } else if str_eq(id, "fedora") {
        Some(String::from_str(FEDORA_HINT))
    } else if str_eq(id, "nixos") {
        Some(String::from_str(NIXOS_HINT))
    } else {
        None
    }
}

/// `parts` joined with `sep` between neighbours.
pub open spec fn join_spec(parts: Seq<Seq<char>>, sep: Seq<char>) -> Seq<char>
    decreases parts.len(),
{
    if parts.len() == 0 {
        seq![]
    } else if parts.len() == 1 {
        parts[0]
    } else {
        join_spec(parts.drop_last(), sep) + sep + parts.last()
    }
}

pub open spec fn strings_view(v: Seq<String>) -> Seq<Seq<char>> {
    v.map_values(|s: String| s@)
}

/// The names joined with ", ".
fn join_names(names: &Vec<String>) -> (res: String)
    ensures
        res@ == join_spec(strings_view(names@), ", "@),
{
    let mut out = String::new();
    let mut i: usize = 0;
    while i < names.len()
        invariant
            0 <= i <= names@.len(),
            out@ == join_spec(strings_view(names@.subrange(0, i as int)), ", "@),
        decreases names@.len() - i,
    {
        let ghost prev = names@.subrange(0, i as int);
        let ghost next = names@.subrange(0, i + 1);
        assert(strings_view(next).drop_last() =~= strings_view(prev));
        if i == 0 {
            out = String::from_str(names[0].as_str());
            assert(strings_view(next) =~= seq![names@[0]@]);
        } else {
            out = out.concat(", ").concat(names[i].as_str());
        }
        i = i + 1;
    }
    assert(names@.subrange(0, names@.len() as int) =~= names@);
    out
}

/// The warnings given when building: when WebRTC's build libraries are
/// missing, what is missing, the distribution's hint if there is one, and
/// the runtime packages; when only runtime packages may be missing, those;
/// otherwise none. Each line is the text of one warning as Cargo shows it,
/// that is, what follows the first `=` of the `cargo:warning=` directive.
pub open spec fn build_warnings_spec(
    missing: Seq<Seq<char>>,
    runtime_missing: bool,
    hint: Option<Seq<char>>,
) -> Seq<Seq<char>> {
    if missing.len() > 0 {
        seq![
            ""@,
            "== Discord voice requires WebRTC-enabled WebKitGTK ==="@,
            "Missing build deps: "@ + join_spec(missing, ", "@),
            ""@,
            "WebKitGTK must have WebRTC compiled in at build time."@,
            "Ubuntu 24.04+ ships WebRTC-enabled WebKitGTK. Debian 12 stock does NOT."@,
            "The Ubuntu PPA (ppa:escalion/ppa-webkit2gtk-experimental) is Ubuntu-only;"@,
        ] + (match hint {
            Some(h) => seq![h],
            None => seq![],
        }) + seq![
            ""@,
            "Runtime deps (install alongside the .deb):"@,
            "  sudo apt install gstreamer1.0-plugins-bad libnice10 libwebrtc-audio-processing1"@,
            ""@,
            "Voice will not work without WebRTC-enabled WebKitGTK."@,
            ""@,
        ]
    } else if runtime_missing {
        seq![
            ""@,
            "Build deps found, but runtime packages may be missing:"@,
            "  sudo apt install gstreamer1.0-plugins-bad libnice10 libwebrtc-audio-processing1"@,
            ""@,
        ]
    } else {
        seq![]
    }
}

/// The warning lines for a build that lacks the WebRTC libraries named in
/// `missing`, or whose runtime packages may be missing.
pub fn webrtc_build_warnings(missing: &Vec<String>, runtime_missing: bool, hint: Option<&str>) -> (res: Vec<String>)
    ensures
        strings_view(res@) == build_warnings_spec(
            strings_view(missing@),
            runtime_missing,
            match hint {
                Some(h) => Some(h@),
                None => None,
            },
        ),
{
    let mut lines: Vec<String> = Vec::new();
    if missing.len() > 0 {
        lines.push(String::from_str(""));
        lines.push(String::from_str("== Discord voice requires WebRTC-enabled WebKitGTK ==="));
        lines.push(String::from_str("Missing build deps: ").concat(join_names(missing).as_str()));
        lines.push(String::from_str(""));
        lines.push(String::from_str("WebKitGTK must have WebRTC compiled in at build time."));
        lines.push(String::from_str("Ubuntu 24.04+ ships WebRTC-enabled WebKitGTK. Debian 12 stock does NOT."));
        lines.push(String::from_str("The Ubuntu PPA (ppa:escalion/ppa-webkit2gtk-experimental) is Ubuntu-only;"));
        match hint {
            Some(h) => lines.push(String::from_str(h)),
            None => {},
        }
        lines.push(String::from_str(""));
        lines.push(String::from_str("Runtime deps (install alongside the .deb):"));
        lines.push(String::from_str("  sudo apt install gstreamer1.0-plugins-bad libnice10 libwebrtc-audio-processing1"));
        lines.push(String::from_str(""));
        lines.push(String::from_str("Voice will not work without WebRTC-enabled WebKitGTK."));
        lines.push(String::from_str(""));
    } else if runtime_missing {
        lines.push(String::from_str(""));
        lines.push(String::from_str("Build deps found, but runtime packages may be missing:"));
        lines.push(String::from_str("  sudo apt install gstreamer1.0-plugins-bad libnice10 libwebrtc-audio-processing1"));
        lines.push(String::from_str(""));
    }
    assert(strings_view(lines@) =~= build_warnings_spec(
        strings_view(missing@),
        runtime_missing,
        match hint {
            Some(h) => Some(h@),
            None => None,
        },
    ));
    lines
}

/// The position of the first line break at or after `i`, or the length of
/// `s` when there is none.
pub open spec fn next_line_break(s: Seq<char>, i: int) -> int
    decreases s.len() - i,
{
    if i >= s.len() {
        s.len() as int
    } else if s[i] == '\n' {
        i
    } else {
        next_line_break(s, i + 1)
    }
}

/// A line without the carriage return that ends it, if any.
pub open spec fn strip_cr(line: Seq<char>) -> Seq<char> {
    if line.len() > 0 && line.last() == '\r' {
        line.drop_last()
    } else {
        line
    }
}

/// The lines of `s` from position `start` on, as `str::lines` gives them:
/// split at line feeds, a carriage return right before a feed removed (a
/// carriage return ending the last line without a feed is kept), and no
/// empty line after a final line feed.
pub open spec fn lines_from(s: Seq<char>, start: int) -> Seq<Seq<char>>
    decreases s.len() - start,
{
    if start < 0 || start >= s.len() {
        seq![]
    } else {
        let end = next_line_break(s, start);
        if end < start || end > s.len() {
            seq![]
        } else if end == s.len() {
            seq![s.subrange(start, end)]
        } else {
            seq![strip_cr(s.subrange(start, end))] + lines_from(s, end + 1)
        }
    }
}

/// The text with every `"` at its start and at its end removed.
pub open spec fn trim_quotes(s: Seq<char>) -> Seq<char>
    decreases s.len(),
{
    if s.len() > 0 && s[0] == '"' {
        trim_quotes(s.drop_first())
    } else if s.len() > 0 && s.last() == '"' {
        trim_quotes(s.drop_last())
    } else {
        s
    }
}

/// What `str::to_lowercase` makes of a text (full Unicode lower-casing).
pub uninterp spec fn lowercase(s: Seq<char>) -> Seq<char>;

/// `str::to_lowercase`. Trusted: the result is what `lowercase` names; the
/// Unicode case mapping is not stated here.
#[verifier::external_body]
fn to_lowercase(s: &str) -> (res: String)
    ensures
        res@ == lowercase(s@),
{
    s.to_lowercase()
}

/// The `ID` and `VERSION_ID` that the lines of an os-release file set, the
/// last line for each winning: `ID` lower-cased and both stripped of
/// surrounding quotes.
pub open spec fn os_release_fields(lines: Seq<Seq<char>>) -> (Option<Seq<char>>, Option<Seq<char>>)
    decreases lines.len(),
{
    if lines.len() == 0 {
        (None, None)
    } else {
        let (id, version) = os_release_fields(lines.drop_last());
        let line = lines.last();
        if seq_starts_with(line, "ID="@) {
            (Some(lowercase(trim_quotes(line.subrange(3, line.len() as int)))), version)
        } else if seq_starts_with(line, "VERSION_ID="@) {
            (id, Some(trim_quotes(line.subrange(11, line.len() as int))))
        } else {
            (id, version)
        }
    }
}

/// The distribution that an os-release file describes, when it sets both
/// its `ID` and its `VERSION_ID`.
pub open spec fn os_release_spec(content: Seq<char>) -> Option<(Seq<char>, Seq<char>)> {
    match os_release_fields(lines_from(content, 0)) {
        (Some(id), Some(version)) => Some((id, version)),
        _ => None,
    }
}

pub open spec fn opt_pair_view(p: Option<(String, String)>) -> Option<(Seq<char>, Seq<char>)> {
    match p {
        Some((a, b)) => Some((a@, b@)),
        None => None,
    }
}

/// The text without the quotes around it (see `trim_quotes`).
fn trim_quotes_exec(s: &str) -> (res: &str)
    ensures
        res@ == trim_quotes(s@),
{
    let n = s.unicode_len();
    let mut a: usize = 0;
    let mut b: usize = n;
    assert(s@.subrange(0, n as int) =~= s@);
    while a < b && s.get_char(a) == '"'
        invariant
            n == s@.len(),
            0 <= a <= b,
            b == n,
            trim_quotes(s@) == trim_quotes(s@.subrange(a as int, b as int)),
        decreases b - a,
    {
        assert(s@.subrange(a as int, b as int).drop_first() =~= s@.subrange(a + 1, b as int));
        a = a + 1;
    }
    while a < b && s.get_char(b - 1) == '"'
        invariant
            n == s@.len(),
            0 <= a <= b <= n,
            a == b || s@[a as int] != '"',
            trim_quotes(s@) == trim_quotes(s@.subrange(a as int, b as int)),
        decreases b - a,
    {
        assert(s@.subrange(a as int, b as int).drop_last() =~= s@.subrange(a as int, b - 1));
        b = b - 1;
    }
    s.substring_char(a, b)
}

proof fn lemma_next_line_break_bounds(s: Seq<char>, i: int)
    requires
        0 <= i,
    ensures
        i <= next_line_break(s, i) || (i > s.len() && next_line_break(s, i) == s.len()),
        next_line_break(s, i) <= s.len() || i > s.len(),
        next_line_break(s, i) < s.len() ==> s[next_line_break(s, i)] == '\n',
        forall|j: int| i <= j < next_line_break(s, i) ==> s[j] != '\n',
    decreases s.len() - i,
{
    if i < s.len() && s[i] != '\n' {
        lemma_next_line_break_bounds(s, i + 1);
    }
}

/// The distribution an os-release file describes: its `ID` (lower-cased)
/// and its `VERSION_ID`, or `None` unless the file sets both.
pub fn parse_os_release(content: &str) -> (res: Option<(String, String)>)
    ensures
        opt_pair_view(res) == os_release_spec(content@),
{
    let n = content.unicode_len();
    let ghost s = content@;
    let mut id: Option<String> = None;
    let mut version: Option<String> = None;
    let ghost mut done: Seq<Seq<char>> = seq![];
    let mut start: usize = 0;
    while start < n
        invariant
            n == s.len(),
            s == content@,
            0 <= start <= n,
            done + lines_from(s, start as int) == lines_from(s, 0),
            os_release_fields(done) == (opt_string_view(id), opt_string_view(version)),
        decreases n - start,
    {
        let mut end: usize = start;
        while end < n && content.get_char(end) != '\n'
            invariant
                n == s.len(),
                s == content@,
                start <= end <= n,
                next_line_break(s, start as int) == next_line_break(s, end as int),
            decreases n - end,
        {
            end = end + 1;
        }
        proof {
            lemma_next_line_break_bounds(s, start as int);
        }
        assert(end == next_line_break(s, start as int));
        let raw: &str = content.substring_char(start, end);
        let raw_len = raw.unicode_len();
        let line: &str = if end < n && raw_len > 0 && raw.get_char(raw_len - 1) == '\r' {
            raw.substring_char(0, raw_len - 1)
        } else {
            raw
        };
        if end < n {
            assert(line@ =~= strip_cr(s.subrange(start as int, end as int)));
        } else {
            assert(line@ =~= s.subrange(start as int, end as int));
        }
        let ghost line_spec = line@;
        if end < n {
            assert(lines_from(s, start as int) == seq![line_spec] + lines_from(s, end + 1));
        } else {
            assert(lines_from(s, start as int) =~= seq![line_spec] + lines_from(s, end + 1));
        }
        let len = line.unicode_len();
        if starts_with(line, "ID=") {
            proof {
                reveal_strlit("ID=");
            }
            let value = trim_quotes_exec(line.substring_char(3, len));
            id = Some(to_lowercase(value));
        } else if starts_with(line, "VERSION_ID=") {
            proof {
                reveal_strlit("VERSION_ID=");
            }
            let value = trim_quotes_exec(line.substring_char(11, len));
            version = Some(String::from_str(value));
        }
        proof {
            let next = done.push(line_spec);
            assert(next.drop_last() =~= done);
            assert(next + lines_from(s, end + 1) =~= done + (seq![line_spec] + lines_from(
                s,
                end + 1,
            )));
            done = next;
        }
        if end < n {
            start = end + 1;
        } else {
            start = n;
            proof {
                assert(lines_from(s, end + 1) =~= seq![]);
                assert(lines_from(s, n as int) =~= seq![]);
            }
        }
    }
    assert(lines_from(s, start as int) =~= seq![]);
    assert(done =~= lines_from(s, 0));
    match (id, version) {
        (Some(i), Some(v)) => Some((i, v)),
        _ => None,
    }
}

} // verus!
