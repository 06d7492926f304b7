//! Custom themes: a user's CSS file is injected into Discord's page, and
//! injected again whenever the file is created or changed.
use vstd::prelude::*;

verus! {

/// The lower-case hexadecimal digit for a value below 16.
pub open spec fn lower_hex_digit(d: int) -> char {
    if d < 10 {
        (0x30 + d) as char
    } else {
        (0x61 - 10 + d) as char
    }
}

/// How a JSON string literal writes one character: `"` and `\` and the
/// control characters are escaped (`\b`, `\t`, `\n`, `\f`, `\r`, or `\u00XX`
/// with lower-case hex digits); everything else stands for itself.
pub open spec fn json_escape_char(c: char) -> Seq<char> {
    if c == '"' {
        seq!['\\', '"']
    } else if c == '\\' {
        seq!['\\', '\\']
    } else if c == '\u{8}' {
        seq!['\\', 'b']
    } else if c == '\t' {
        seq!['\\', 't']
    } else if c == '\n' {
        seq!['\\', 'n']
    } else if c == '\u{c}' {
        seq!['\\', 'f']
    } else if c == '\r' {
        seq!['\\', 'r']
    } else if (c as u32) < 0x20 {
        seq!['\\', 'u', '0', '0', lower_hex_digit(c as u32 as int / 16), lower_hex_digit(c as u32 as int % 16)]
    } else {
        seq![c]
    }
}

pub open spec fn json_escape(s: Seq<char>) -> Seq<char>
    decreases s.len(),
{
    if s.len() == 0 {
        seq![]
    } else {
        json_escape_char(s[0]) + json_escape(s.drop_first())
    }
}

/// The JSON string literal for `s`, quotes included.
pub open spec fn json_string_literal(s: Seq<char>) -> Seq<char> {
    seq!['"'] + json_escape(s) + seq!['"']
}

/// The escaped text holds no control character (so no line break), and
/// each double quote in it follows a backslash: the style sheet, however
/// written, stays inside the script's string literal.
pub proof fn lemma_json_escape_is_inert(s: Seq<char>)
    ensures
        forall|i: int|
            0 <= i < json_escape(s).len() ==> (#[trigger] json_escape(s)[i]) as u32 >= 0x20,
        forall|i: int|
            0 <= i < json_escape(s).len() && #[trigger] json_escape(s)[i] == '"' ==> i > 0
                && json_escape(s)[i - 1] == '\\',
    decreases s.len(),
{
    if s.len() > 0 {
        lemma_json_escape_is_inert(s.drop_first());
        let head = json_escape_char(s[0]);
        let rest = json_escape(s.drop_first());
        assert(json_escape(s) == head + rest);
        let c = s[0];
        if (c as u32) < 0x20 {
            let v = c as u32 as int;
            assert(0 <= v / 16 < 2 && 0 <= v % 16 < 16) by (nonlinear_arith)
                requires
                    0 <= v < 0x20,
            ;
        }
        assert forall|i: int| 0 <= i < head.len() implies (#[trigger] head[i]) as u32 >= 0x20 && (
        head[i] == '"' ==> i > 0 && head[i - 1] == '\\') by {}
        assert forall|i: int| 0 <= i < json_escape(s).len() implies (#[trigger] json_escape(
            s,
        )[i]) as u32 >= 0x20 by {
            if i < head.len() {
                assert(json_escape(s)[i] == head[i]);
            } else {
                assert(json_escape(s)[i] == rest[i - head.len()]);
            }
        }
        assert forall|i: int|
            0 <= i < json_escape(s).len() && #[trigger] json_escape(s)[i] == '"' implies i > 0
                && json_escape(s)[i - 1] == '\\' by {
            if i < head.len() {
                assert(json_escape(s)[i] == head[i]);
                assert(json_escape(s)[i - 1] == head[i - 1]);
            } else {
                assert(json_escape(s)[i] == rest[i - head.len()]);
                if i - head.len() > 0 {
                    assert(json_escape(s)[i - 1] == rest[i - 1 - head.len()]);
                }
            }
        }
    }
}

/// `serde_json::to_string` on a string: the JSON string literal for it, with
/// the escapes that serde_json's compact formatter writes. Serialising a
/// string into memory does not fail; the empty text that the error case
/// would give is never returned.
#[verifier::external_body]
fn json_string(s: &str) -> (res: String)
    ensures
        res@ == json_string_literal(s@),
{
    serde_json::to_string(s).unwrap_or_default()
}

pub const CSS_SCRIPT_HEAD: &'static str = "document.getElementById('tauricord-css')?.remove();
const s = document.createElement('style');
s.id = 'tauricord-css';
s.textContent = ";

pub const CSS_SCRIPT_TAIL: &'static str = ";
document.head?.appendChild(s);";

/// The script that replaces the injected style sheet with `css`.
pub open spec fn css_injection_spec(css: Seq<char>) -> Seq<char> {
    CSS_SCRIPT_HEAD@ + json_string_literal(css) + CSS_SCRIPT_TAIL@
}

/// The script run in Discord's page to (re)install the user's style sheet:
/// it removes the previously injected `<style>` element and appends a new
/// one whose text is `css`, passed as a JSON string literal so that any
/// content is inert.
pub fn css_injection_script(css: &str) -> (res: String)
    ensures
        res@ == css_injection_spec(css@),
{
    let quoted = json_string(css);
    String::from_str(CSS_SCRIPT_HEAD).concat(quoted.as_str()).concat(CSS_SCRIPT_TAIL)
}

/// A change that the file watcher reports on the style sheet.
#[derive(PartialEq, Eq, Structural, Debug, Clone, Copy)]
pub enum CssFileEvent {
    Created,
    Modified,
    /// Access, removal, or any other kind of event.
    Other,
}

/// Whether a watcher event leads to injecting the style sheet again: only
/// when the file was created or modified.
pub fn css_event_reinjects(event: CssFileEvent) -> (res: bool)
    ensures
        res == (event == CssFileEvent::Created || event == CssFileEvent::Modified),
{
    match event {
        CssFileEvent::Created => true,
        CssFileEvent::Modified => true,
        CssFileEvent::Other => false,
    }
}

} // verus!
