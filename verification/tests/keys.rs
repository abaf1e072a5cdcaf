use tg::keys::{
    app_key_event_from_crossterm, terminal_document_clipboard_intent_from_crossterm, AppKeyCode,
    ClipboardIntent, TerminalKey, TerminalKeyCode, TerminalModifiers,
};

#[test]
fn crossterm_translation_preserves_shifted_document_shortcut_key() {
    let event = TerminalKey::new(TerminalKeyCode::Char('Y'), TerminalModifiers::shift());
    let translated = app_key_event_from_crossterm(event);
    assert_eq!(translated.code, AppKeyCode::Char('Y'));
    assert!(translated.modifiers.shift);
}

#[test]
fn crossterm_translation_normalizes_lowercase_shifted_alpha_to_uppercase() {
    let event = TerminalKey::new(TerminalKeyCode::Char('l'), TerminalModifiers::shift());
    let translated = app_key_event_from_crossterm(event);
    assert_eq!(translated.code, AppKeyCode::Char('L'));
    assert!(translated.modifiers.shift);
}

#[test]
fn crossterm_translation_preserves_shifted_arrow_precision_input() {
    let event = TerminalKey::new(TerminalKeyCode::Left, TerminalModifiers::shift());
    let translated = app_key_event_from_crossterm(event);
    assert_eq!(translated.code, AppKeyCode::Left);
    assert!(translated.modifiers.shift);
}

#[test]
fn terminal_document_clipboard_intent_accepts_shifted_terminal_shortcuts() {
    let event = TerminalKey::new(TerminalKeyCode::Char('P'), TerminalModifiers::shift());

    assert_eq!(
        terminal_document_clipboard_intent_from_crossterm(event),
        Some(ClipboardIntent::PasteDocument)
    );
}

#[test]
fn terminal_document_clipboard_intent_recognizes_cut_document_shortcut() {
    let event = TerminalKey::new(TerminalKeyCode::Char('X'), TerminalModifiers::shift());

    assert_eq!(
        terminal_document_clipboard_intent_from_crossterm(event),
        Some(ClipboardIntent::CutDocument)
    );
}

#[test]
fn unshifted_or_unmodified_keys_keep_their_case_and_have_no_document_intent() {
    let event = TerminalKey::new(TerminalKeyCode::Char('y'), TerminalModifiers::none());
    assert_eq!(app_key_event_from_crossterm(event).code, AppKeyCode::Char('y'));
    assert_eq!(terminal_document_clipboard_intent_from_crossterm(event), None);
    let event = TerminalKey::new(TerminalKeyCode::Char('1'), TerminalModifiers::shift());
    assert_eq!(app_key_event_from_crossterm(event).code, AppKeyCode::Char('1'));
    let event = TerminalKey::new(TerminalKeyCode::Char('y'), TerminalModifiers::shift());
    assert_eq!(
        terminal_document_clipboard_intent_from_crossterm(event),
        Some(ClipboardIntent::CopyDocument)
    );
}

#[test]
fn other_terminal_keys_become_null_with_modifiers_kept() {
    let event = TerminalKey::new(TerminalKeyCode::Other, TerminalModifiers::control());
    let translated = app_key_event_from_crossterm(event);
    assert_eq!(translated.code, AppKeyCode::Null);
    assert!(translated.modifiers.control && !translated.modifiers.shift);
    let event = TerminalKey::new(TerminalKeyCode::PageDown, TerminalModifiers::none());
    assert_eq!(app_key_event_from_crossterm(event).code, AppKeyCode::PageDown);
}
