use tg::editor_state::{EditorState, SAVE_PROMPT_TEXT};
use tg::file_mode::FileMode;
use tg::host::{
    apply_timer_directive, base_output_dir, clipboard_text_to_sync, coalesced_key,
    default_recording_path_for, default_trace_path_for, document_paste_text, handle_host_key,
    prompt_key_intent, prompt_should_bypass_to_core, textagram_dev_env_enabled_from,
    HostKeyStep, PromptKeyIntent, TerminalEvent, TimerDirective,
};
use tg::keys::{
    AppKeyCode, AppKeyEvent, AppKeyModifiers, Mode, TerminalKey, TerminalKeyCode,
    TerminalModifiers,
};

fn key(c: char) -> AppKeyEvent {
    AppKeyEvent::new(AppKeyCode::Char(c), AppKeyModifiers::none())
}

#[test]
fn textagram_dev_env_is_disabled_when_unset_or_empty() {
    assert!(!textagram_dev_env_enabled_from(None));
    assert!(!textagram_dev_env_enabled_from(Some(String::new())));
}

#[test]
fn textagram_dev_env_is_enabled_when_present_and_non_empty() {
    assert!(textagram_dev_env_enabled_from(Some("1".to_string())));
}

#[test]
fn default_trace_path_is_disabled_outside_dev_env() {
    assert_eq!(default_trace_path_for(false, Some("/tmp/textagram-dev")), None);
}

#[test]
fn default_trace_path_uses_repo_relative_location_in_dev_env() {
    assert_eq!(
        default_trace_path_for(true, Some("/tmp/textagram-dev")),
        Some("/tmp/textagram-dev/spec/e2e/recording.trace".to_string())
    );
}

#[test]
fn default_recording_path_uses_cwd_by_default() {
    assert_eq!(
        default_recording_path_for(false, Some("/tmp/textagram-dev")),
        "/tmp/textagram-dev/tg-recording.md".to_string()
    );
}

#[test]
fn default_recording_path_uses_repo_relative_location_in_dev_env() {
    assert_eq!(
        default_recording_path_for(true, Some("/tmp/textagram-dev")),
        "/tmp/textagram-dev/spec/e2e/recording.md".to_string()
    );
}

#[test]
fn output_dir_falls_back_to_current_directory() {
    assert_eq!(base_output_dir(None), ".");
    assert_eq!(default_recording_path_for(false, None), "./tg-recording.md");
    assert_eq!(default_recording_path_for(false, Some("/")), "/tg-recording.md");
}

#[test]
fn prompt_answers_are_case_insensitive_and_escape_cancels() {
    assert_eq!(prompt_key_intent(key('y')), Some(PromptKeyIntent::SaveAndExit));
    assert_eq!(
        prompt_key_intent(AppKeyEvent::new(AppKeyCode::Char('N'), AppKeyModifiers::shift())),
        Some(PromptKeyIntent::DiscardAndExit)
    );
    assert_eq!(
        prompt_key_intent(AppKeyEvent::new(AppKeyCode::Esc, AppKeyModifiers::control())),
        Some(PromptKeyIntent::Cancel)
    );
    assert_eq!(
        prompt_key_intent(AppKeyEvent::new(AppKeyCode::Char('y'), AppKeyModifiers::control())),
        None
    );
    assert_eq!(prompt_key_intent(key('z')), None);
}

#[test]
fn control_quit_and_record_bypass_the_prompt() {
    assert!(prompt_should_bypass_to_core(
        Mode::Text,
        AppKeyEvent::new(AppKeyCode::Char('c'), AppKeyModifiers::control())
    ));
    assert!(prompt_should_bypass_to_core(Mode::Nav, key('Q')));
    assert!(!prompt_should_bypass_to_core(Mode::Text, key('Q')));
    assert!(!prompt_should_bypass_to_core(Mode::Nav, key('q')));
}

#[test]
fn host_keeps_quit_and_save_keys_for_file_backed_sessions() {
    let mut state = EditorState::new(FileMode::from_existing_text("d.tg".to_string(), "a"));
    assert_eq!(handle_host_key(&mut state, Mode::Nav, key('q')), HostKeyStep::BeginQuit);
    assert_eq!(handle_host_key(&mut state, Mode::Text, key('q')), HostKeyStep::ForwardToCore);
    assert_eq!(
        handle_host_key(
            &mut state,
            Mode::Text,
            AppKeyEvent::new(AppKeyCode::Char('S'), AppKeyModifiers::control())
        ),
        HostKeyStep::SaveShortcut
    );
    let mut scratch = EditorState::new(FileMode::scratch());
    assert_eq!(handle_host_key(&mut scratch, Mode::Nav, key('q')), HostKeyStep::ForwardToCore);
}

#[test]
fn prompt_keys_answer_cancel_discard_or_ring() {
    let mut state = EditorState::new(FileMode::from_existing_text("d.tg".to_string(), "a"));
    state.begin_quit("b");
    assert_eq!(handle_host_key(&mut state, Mode::Nav, key('x')), HostKeyStep::RingBell);
    assert_eq!(state.center_text(), Some(SAVE_PROMPT_TEXT));
    assert_eq!(handle_host_key(&mut state, Mode::Nav, key('y')), HostKeyStep::SaveAndExit);
    assert!(state.prompt_active());
    assert_eq!(
        handle_host_key(&mut state, Mode::Nav, AppKeyEvent::new(AppKeyCode::Esc, AppKeyModifiers::none())),
        HostKeyStep::PromptCancelled
    );
    assert!(!state.prompt_active());
    state.begin_quit("b");
    assert_eq!(handle_host_key(&mut state, Mode::Nav, key('n')), HostKeyStep::DiscardAndExit);
    assert!(!state.prompt_active());
}

#[test]
fn movement_bursts_collapse_to_their_last_key() {
    let mv = |c| TerminalEvent::Key(TerminalKey::new(TerminalKeyCode::Char(c), TerminalModifiers::none()));
    let events = vec![mv('h'), mv('j'), mv('l'), mv('x'), mv('k')];
    assert_eq!(coalesced_key(&events, 0, Mode::Nav), (2, 3));
    assert_eq!(coalesced_key(&events, 0, Mode::Text), (0, 1));
    assert_eq!(coalesced_key(&events, 3, Mode::Nav), (3, 4));
    assert_eq!(coalesced_key(&events, 4, Mode::Shape), (4, 5));
    let with_resize = vec![mv('h'), TerminalEvent::Resize(10, 10), mv('j')];
    assert_eq!(coalesced_key(&with_resize, 0, Mode::Connector), (0, 1));
}

#[test]
fn timer_directives_update_the_tick_delay() {
    assert_eq!(apply_timer_directive(Some(5), TimerDirective::Unchanged), Some(5));
    assert_eq!(apply_timer_directive(None, TimerDirective::Schedule(16)), Some(16));
    assert_eq!(apply_timer_directive(Some(5), TimerDirective::Clear), None);
}

#[test]
fn selection_clipboard_syncs_only_after_changes() {
    assert_eq!(clipboard_text_to_sync(key('y'), Some("a"), Some("b")), Some("b".to_string()));
    assert_eq!(clipboard_text_to_sync(key('y'), Some("a"), Some("a")), None);
    assert_eq!(clipboard_text_to_sync(key('y'), None, Some("a")), Some("a".to_string()));
    assert_eq!(clipboard_text_to_sync(key('y'), Some("a"), None), None);
    assert_eq!(clipboard_text_to_sync(key('p'), Some("a"), Some("b")), None);
}

#[test]
fn document_paste_prefers_system_clipboard() {
    assert_eq!(document_paste_text(Some("os".to_string()), Some("in".to_string())), "os");
    assert_eq!(document_paste_text(None, Some("in".to_string())), "in");
    assert_eq!(document_paste_text(None, None), "");
}
