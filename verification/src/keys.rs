//! Keys: as the terminal reports them, and as the editing core takes them.
use vstd::prelude::*;

verus! {

/// A key code as the terminal reports it; keys the host does not distinguish are `Other`.
#[derive(Debug, Clone, Copy, PartialEq, Eq)]
pub enum TerminalKeyCode {
    Char(char),
    Enter,
    Esc,
    Left,
    Right,
    Up,
    Down,
    Backspace,
    Tab,
    PageUp,
    PageDown,
    Other,
}

/// The modifier keys the terminal reports with a key.
#[derive(Debug, Clone, Copy, PartialEq, Eq)]
pub struct TerminalModifiers {
    pub shift: bool,
    pub control: bool,
    pub alt: bool,
}

impl TerminalModifiers {
    /// No modifier.
    pub fn none() -> (m: Self)
        ensures
            !m.shift && !m.control && !m.alt,
    {
        Self { shift: false, control: false, alt: false }
    }

    /// Shift alone.
    pub fn shift() -> (m: Self)
        ensures
            m.shift && !m.control && !m.alt,
    {
        Self { shift: true, control: false, alt: false }
    }

    /// Control alone.
    pub fn control() -> (m: Self)
        ensures
            !m.shift && m.control && !m.alt,
    {
        Self { shift: false, control: true, alt: false }
    }
}

/// A key event as the terminal reports it; `pressed` is false for releases and repeats.
#[derive(Debug, Clone, Copy, PartialEq, Eq)]
pub struct TerminalKey {
    pub code: TerminalKeyCode,
    pub modifiers: TerminalModifiers,
    pub pressed: bool,
}

impl TerminalKey {
    /// A key press.
    pub fn new(code: TerminalKeyCode, modifiers: TerminalModifiers) -> (k: Self)
        ensures
            k == (TerminalKey { code, modifiers, pressed: true }),
    {
        Self { code, modifiers, pressed: true }
    }
}

/// A key code as the editing core takes it.
#[derive(Debug, Clone, Copy, PartialEq, Eq)]
pub enum AppKeyCode {
    Char(char),
    Enter,
    Esc,
    Left,
    Right,
    Up,
    Down,
    Backspace,
    Tab,
    PageUp,
    PageDown,
    Null,
}

/// The modifiers the editing core distinguishes.
#[derive(Debug, Clone, Copy, PartialEq, Eq)]
pub struct AppKeyModifiers {
    pub shift: bool,
    pub control: bool,
    pub alt: bool,
}

impl AppKeyModifiers {
    /// No modifier.
    pub fn none() -> (m: Self)
        ensures
            !m.shift && !m.control && !m.alt,
    {
        Self { shift: false, control: false, alt: false }
    }

    /// Shift alone.
    pub fn shift() -> (m: Self)
        ensures
            m.shift && !m.control && !m.alt,
    {
        Self { shift: true, control: false, alt: false }
    }

    /// Control alone.
    pub fn control() -> (m: Self)
        ensures
            !m.shift && m.control && !m.alt,
    {
        Self { shift: false, control: true, alt: false }
    }
}

/// A key event as the editing core takes it.
#[derive(Debug, Clone, Copy, PartialEq, Eq)]
pub struct AppKeyEvent {
    pub code: AppKeyCode,
    pub modifiers: AppKeyModifiers,
}

impl AppKeyEvent {
    /// A key event.
    pub fn new(code: AppKeyCode, modifiers: AppKeyModifiers) -> (e: Self)
        ensures
            e == (AppKeyEvent { code, modifiers }),
    {
        Self { code, modifiers }
    }
}

/// Whole-document and selection clipboard requests.
#[derive(Debug, Clone, Copy, PartialEq, Eq)]
pub enum ClipboardIntent {
    CopyDocument,
    CutDocument,
    PasteDocument,
    CopySelectionOrDocument,
    CutSelection,
    PasteSelection,
}

/// The editing core's modes, as far as the host tells them apart.
#[derive(Debug, Clone, Copy, PartialEq, Eq)]
pub enum Mode {
    Nav,
    Text,
    Shape,
    Connector,
    Other,
}

/// A lowercase ASCII letter.
pub open spec fn is_ascii_lowercase(c: char) -> bool {
    'a' <= c <= 'z'
}

/// A shifted lowercase ASCII letter becomes its uppercase letter; anything else is kept.
pub open spec fn shifted_alpha(c: char, shift: bool) -> char {
    if shift && is_ascii_lowercase(c) {
        ((c as u32) - 32) as char
    } else {
        c
    }
}

/// The core's key code for a terminal key code.
pub open spec fn app_code_for(code: TerminalKeyCode, shift: bool) -> AppKeyCode {
    match code {
        TerminalKeyCode::Char(c) => AppKeyCode::Char(shifted_alpha(c, shift)),
        TerminalKeyCode::Enter => AppKeyCode::Enter,
        TerminalKeyCode::Esc => AppKeyCode::Esc,
        TerminalKeyCode::Left => AppKeyCode::Left,
        TerminalKeyCode::Right => AppKeyCode::Right,
        TerminalKeyCode::Up => AppKeyCode::Up,
        TerminalKeyCode::Down => AppKeyCode::Down,
        TerminalKeyCode::Backspace => AppKeyCode::Backspace,
        TerminalKeyCode::Tab => AppKeyCode::Tab,
        TerminalKeyCode::PageUp => AppKeyCode::PageUp,
        TerminalKeyCode::PageDown => AppKeyCode::PageDown,
        TerminalKeyCode::Other => AppKeyCode::Null,
    }
}

/// The core's key event for a terminal key: the same modifiers, and the code
/// translated with shifted lowercase letters made uppercase.
pub open spec fn app_key_for(key: TerminalKey) -> AppKeyEvent {
    AppKeyEvent {
        code: app_code_for(key.code, key.modifiers.shift),
        modifiers: AppKeyModifiers {
            shift: key.modifiers.shift,
            control: key.modifiers.control,
            alt: key.modifiers.alt,
        },
    }
}

/// Translates a terminal key event into the core's key event.
pub fn app_key_event_from_crossterm(key_event: TerminalKey) -> (e: AppKeyEvent)
    ensures
        e == app_key_for(key_event),
{
    let modifiers = AppKeyModifiers {
        shift: key_event.modifiers.shift,
        control: key_event.modifiers.control,
        alt: key_event.modifiers.alt,
    };
    let code = match key_event.code {
        TerminalKeyCode::Char(ch) => AppKeyCode::Char(
            normalized_shifted_alpha_char(ch, key_event.modifiers),
        ),
        TerminalKeyCode::Enter => AppKeyCode::Enter,
        TerminalKeyCode::Esc => AppKeyCode::Esc,
        TerminalKeyCode::Left => AppKeyCode::Left,
        TerminalKeyCode::Right => AppKeyCode::Right,
        TerminalKeyCode::Up => AppKeyCode::Up,
        TerminalKeyCode::Down => AppKeyCode::Down,
        TerminalKeyCode::Backspace => AppKeyCode::Backspace,
        TerminalKeyCode::Tab => AppKeyCode::Tab,
        TerminalKeyCode::PageUp => AppKeyCode::PageUp,
        TerminalKeyCode::PageDown => AppKeyCode::PageDown,
        TerminalKeyCode::Other => AppKeyCode::Null,
    };
    AppKeyEvent { code, modifiers }
}

fn normalized_shifted_alpha_char(ch: char, modifiers: TerminalModifiers) -> (r: char)
    ensures
        r == shifted_alpha(ch, modifiers.shift),
{
    if modifiers.shift && 'a' <= ch && ch <= 'z' {
        (((ch as u32) - 32) as u8) as char
    } else {
        ch
    }
}

/// The whole-document clipboard request of a shifted `Y`, `X` or `P` (either case).
pub open spec fn document_clipboard_intent(key: TerminalKey) -> Option<ClipboardIntent> {
    if !key.modifiers.shift {
        None
    } else {
        match key.code {
            TerminalKeyCode::Char(c) => if c == 'Y' || c == 'y' {
                Some(ClipboardIntent::CopyDocument)
            } else if c == 'X' || c == 'x' {
                Some(ClipboardIntent::CutDocument)
            } else if c == 'P' || c == 'p' {
                Some(ClipboardIntent::PasteDocument)
            } else {
                None
            },
            _ => None,
        }
    }
}

/// Maps the terminal-only shifted document clipboard keys (`Y`/`P`/`X`) to intents.
pub fn terminal_document_clipboard_intent_from_crossterm(key_event: TerminalKey) -> (r: Option<
    ClipboardIntent,
>)
    ensures
        r == document_clipboard_intent(key_event),
{
    if !key_event.modifiers.shift {
        return None;
    }
    match key_event.code {
        TerminalKeyCode::Char(c) => {
            if c == 'Y' || c == 'y' {
                Some(ClipboardIntent::CopyDocument)
            } else if c == 'X' || c == 'x' {
                Some(ClipboardIntent::CutDocument)
            } else if c == 'P' || c == 'p' {
                Some(ClipboardIntent::PasteDocument)
            } else {
                None
            }
        },
        _ => None,
    }
}

/// Translating a terminal key keeps its modifiers, gives every named key the core
/// key of the same name and any other key `Null`, keeps a character unless shift
/// is held on a lowercase ASCII letter, which becomes the uppercase letter.
pub proof fn law_key_translation(key: TerminalKey)
    ensures
        app_key_for(key).modifiers.shift == key.modifiers.shift,
        app_key_for(key).modifiers.control == key.modifiers.control,
        app_key_for(key).modifiers.alt == key.modifiers.alt,
        key.code == TerminalKeyCode::Enter ==> app_key_for(key).code == AppKeyCode::Enter,
        key.code == TerminalKeyCode::Esc ==> app_key_for(key).code == AppKeyCode::Esc,
        key.code == TerminalKeyCode::Left ==> app_key_for(key).code == AppKeyCode::Left,
        key.code == TerminalKeyCode::Right ==> app_key_for(key).code == AppKeyCode::Right,
        key.code == TerminalKeyCode::Up ==> app_key_for(key).code == AppKeyCode::Up,
        key.code == TerminalKeyCode::Down ==> app_key_for(key).code == AppKeyCode::Down,
        key.code == TerminalKeyCode::Backspace ==> app_key_for(key).code == AppKeyCode::Backspace,
        key.code == TerminalKeyCode::Tab ==> app_key_for(key).code == AppKeyCode::Tab,
        key.code == TerminalKeyCode::PageUp ==> app_key_for(key).code == AppKeyCode::PageUp,
        key.code == TerminalKeyCode::PageDown ==> app_key_for(key).code == AppKeyCode::PageDown,
        key.code == TerminalKeyCode::Other ==> app_key_for(key).code == AppKeyCode::Null,
        forall|c: char|
            key.code == TerminalKeyCode::Char(c) && !(key.modifiers.shift && 'a' <= c <= 'z')
                ==> app_key_for(key).code == AppKeyCode::Char(c),
        forall|c: char|
            key.code == TerminalKeyCode::Char(c) && key.modifiers.shift && 'a' <= c <= 'z'
                ==> (app_key_for(key).code matches AppKeyCode::Char(u) && (u as u32) + 32
                == c as u32 && 'A' <= u <= 'Z'),
{
}

/// Only a shifted key is a whole-document clipboard request: `Y` or `y` copies,
/// `X` or `x` cuts, `P` or `p` pastes, and nothing else is one.
pub proof fn law_document_clipboard_keys(key: TerminalKey)
    ensures
        !key.modifiers.shift ==> document_clipboard_intent(key) is None,
        key.modifiers.shift && (key.code == TerminalKeyCode::Char('Y') || key.code
            == TerminalKeyCode::Char('y')) ==> document_clipboard_intent(key) == Some(
            ClipboardIntent::CopyDocument,
        ),
        key.modifiers.shift && (key.code == TerminalKeyCode::Char('X') || key.code
            == TerminalKeyCode::Char('x')) ==> document_clipboard_intent(key) == Some(
            ClipboardIntent::CutDocument,
        ),
        key.modifiers.shift && (key.code == TerminalKeyCode::Char('P') || key.code
            == TerminalKeyCode::Char('p')) ==> document_clipboard_intent(key) == Some(
            ClipboardIntent::PasteDocument,
        ),
        document_clipboard_intent(key) is Some ==> key.modifiers.shift && (key.code
            == TerminalKeyCode::Char('Y') || key.code == TerminalKeyCode::Char('y') || key.code
            == TerminalKeyCode::Char('X') || key.code == TerminalKeyCode::Char('x') || key.code
            == TerminalKeyCode::Char('P') || key.code == TerminalKeyCode::Char('p')),
{
}

} // verus!
