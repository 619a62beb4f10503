//! Messages between the interface and its backend, and key presses as the terminal
//! backend names them.
use vstd::prelude::*;
use crate::keys::{KeyCodeInput, KeyInput, KeyPhase};
use crate::text::{ascii_lower, decimal, decimal_exec, string_of};

verus! {

/// The modifiers of a keystroke sent to the terminal.
#[derive(Debug, Clone, Copy, PartialEq, Eq, Structural)]
pub struct TuiKeyModifiers {
    pub control: bool,
    pub alt: bool,
    pub shift: bool,
}

impl Default for TuiKeyModifiers {
    fn default() -> (r: TuiKeyModifiers)
        ensures
            !r.control && !r.alt && !r.shift,
    {
        TuiKeyModifiers { control: false, alt: false, shift: false }
    }
}

/// A keystroke sent to the terminal: its modifiers and the name of its key.
#[derive(Debug, Clone)]
pub struct TuiKeystroke {
    pub modifiers: TuiKeyModifiers,
    pub key: String,
}

/// A request from the interface to its backend.
#[derive(Debug)]
pub enum TuiToBackendRequest {
    ListDirectory(std::path::PathBuf),
    OpenBuffer(std::path::PathBuf),
    CloseBuffer,
    TerminalKeystroke(TuiKeystroke),
    TerminalInput(Vec<u8>),
    TerminalResize { cols: u16, rows: u16 },
    TerminalScrollPageUp,
    TerminalScrollPageDown,
    StartAgentAction(String),
}

/// A reply from the backend to the interface.
#[derive(Debug, Clone)]
pub enum BackendToTuiResponse {
    AgentStatusUpdate(String),
}

/// The terminal's name for a key: `space`, a lower-cased character, `enter`, `tab`
/// (also for back-tab), `backspace`, `escape`, the arrows, `home`, `end`, `pageup`,
/// `pagedown`, `delete`, `insert`, or `f` and the number of a function key. Other keys
/// have no name.
pub open spec fn key_name(code: KeyCodeInput) -> Option<Seq<char>> {
    match code {
        KeyCodeInput::Char(c) => if c == ' ' {
            Some("space"@)
        } else {
            Some(seq![ascii_lower(c)])
        },
        KeyCodeInput::Enter => Some("enter"@),
        KeyCodeInput::Tab => Some("tab"@),
        KeyCodeInput::BackTab => Some("tab"@),
        KeyCodeInput::Backspace => Some("backspace"@),
        KeyCodeInput::Esc => Some("escape"@),
        KeyCodeInput::Up => Some("up"@),
        KeyCodeInput::Down => Some("down"@),
        KeyCodeInput::Left => Some("left"@),
        KeyCodeInput::Right => Some("right"@),
        KeyCodeInput::Home => Some("home"@),
        KeyCodeInput::End => Some("end"@),
        KeyCodeInput::PageUp => Some("pageup"@),
        KeyCodeInput::PageDown => Some("pagedown"@),
        KeyCodeInput::Delete => Some("delete"@),
        KeyCodeInput::Insert => Some("insert"@),
        KeyCodeInput::F(n) => Some("f"@ + decimal(n as nat)),
        _ => None,
    }
}

/// Whether a key counts as shifted: `Shift` is held, or the key is back-tab or an
/// ASCII capital letter.
pub open spec fn key_shifted(key: KeyInput) -> bool {
    key.modifiers.shift || key.code == KeyCodeInput::BackTab || (key.code matches KeyCodeInput::Char(
        c,
    ) && 'A' <= c && c <= 'Z')
}

/// The keystroke name of `code`.
fn key_name_exec(code: KeyCodeInput) -> (r: Option<String>)
    ensures
        match (r, key_name(code)) {
            (Some(s), Some(t)) => s@ == t,
            (None, None) => true,
            _ => false,
        },
{
    match code {
        KeyCodeInput::Char(c) => if c == ' ' {
            Some("space".to_owned())
        } else {
            let lower = crate::text::ascii_lower_exec(c);
            let mut v: Vec<char> = Vec::new();
            v.push(lower);
            assert(v@ =~= seq![ascii_lower(c)]);
            Some(string_of(v.as_slice()))
        },
        KeyCodeInput::Enter => Some("enter".to_owned()),
        KeyCodeInput::Tab => Some("tab".to_owned()),
        KeyCodeInput::BackTab => Some("tab".to_owned()),
        KeyCodeInput::Backspace => Some("backspace".to_owned()),
        KeyCodeInput::Esc => Some("escape".to_owned()),
        KeyCodeInput::Up => Some("up".to_owned()),
        KeyCodeInput::Down => Some("down".to_owned()),
        KeyCodeInput::Left => Some("left".to_owned()),
        KeyCodeInput::Right => Some("right".to_owned()),
        KeyCodeInput::Home => Some("home".to_owned()),
        KeyCodeInput::End => Some("end".to_owned()),
        KeyCodeInput::PageUp => Some("pageup".to_owned()),
        KeyCodeInput::PageDown => Some("pagedown".to_owned()),
        KeyCodeInput::Delete => Some("delete".to_owned()),
        KeyCodeInput::Insert => Some("insert".to_owned()),
        KeyCodeInput::F(n) => {
            let mut v: Vec<char> = Vec::new();
            v.push('f');
            let digits = decimal_exec(n as usize);
            crate::text::push_chars(&mut v, &digits);
            assert(v@ =~= "f"@ + decimal(n as nat)) by {
                reveal_strlit("f");
            }
            Some(string_of(v.as_slice()))
        },
        _ => None,
    }
}

/// The keystroke the terminal receives for `key`: none for a released key or a key
/// without a name; else its name with `Control` and `Alt` as held, and `Shift` as
/// [`key_shifted`] says.
pub fn crossterm_key_event_to_keystroke(key: &KeyInput) -> (r: Option<TuiKeystroke>)
    ensures
        key.phase == KeyPhase::Release ==> r is None,
        key.phase != KeyPhase::Release ==> match (r, key_name(key.code)) {
            (Some(k), Some(name)) => k.key@ == name && k.modifiers.control == key.modifiers.control
                && k.modifiers.alt == key.modifiers.alt && k.modifiers.shift == key_shifted(*key),
            (None, None) => true,
            _ => false,
        },
{
    if key.phase == KeyPhase::Release {
        return None;
    }
    let mut modifiers = TuiKeyModifiers::default();
    modifiers.control = key.modifiers.control;
    modifiers.alt = key.modifiers.alt;
    modifiers.shift = key.modifiers.shift;
    match key.code {
        KeyCodeInput::Char(c) => {
            if 'A' <= c && c <= 'Z' {
                modifiers.shift = true;
            }
        },
        KeyCodeInput::BackTab => {
            modifiers.shift = true;
        },
        _ => {},
    }
    match key_name_exec(key.code) {
        Some(name) => Some(TuiKeystroke { modifiers, key: name }),
        None => None,
    }
}

} // verus!
