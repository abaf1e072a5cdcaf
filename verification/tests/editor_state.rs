use tg::editor_state::{
    EditorState, QuitRequest, SaveRequestOutcome, NO_FILE_TO_SAVE_TEXT, SAVE_FAILED_TEXT,
    SAVE_PROMPT_TEXT,
};
use tg::file_mode::{FileMode, LoadedFile, PlainFileDocument};

#[test]
fn save_shortcut_in_scratch_mode_sets_blocked_message() {
    let mut state = EditorState::new(FileMode::scratch());

    let outcome = state.save_from_shortcut("", Ok(())).unwrap();

    assert_eq!(outcome, SaveRequestOutcome::BlockedNoFile);
    assert_eq!(state.center_text(), Some(NO_FILE_TO_SAVE_TEXT));
    assert!(!state.prompt_active());
}

#[test]
fn plain_file_save_writes_new_contents_and_refreshes_dirty_baseline() {
    let mode =
        FileMode::from_load_result("diagram.tg".to_string(), LoadedFile::Text("old".to_string()))
            .unwrap();
    let mut state = EditorState::new(mode);

    assert_eq!(state.file_mode().save_payload("new"), Some("new".to_string()));
    let outcome = state.save_from_shortcut("new", Ok(())).unwrap();

    assert_eq!(outcome, SaveRequestOutcome::Saved);
    assert!(!state.file_mode().is_dirty("new"));
    assert_eq!(state.center_text(), None);
}

#[test]
fn markdown_backed_save_rewrites_only_first_recognized_fence_body() {
    let mode = FileMode::from_load_result(
        "diagram.md".to_string(),
        LoadedFile::Text(
            "before\n```textagram\nold\n```\nmid\n```textagram\nlater\n```\nafter\n".to_string(),
        ),
    )
    .unwrap();
    let mut state = EditorState::new(mode);

    assert_eq!(
        state.file_mode().save_payload("new"),
        Some("before\n```textagram\nnew\n```\nmid\n```textagram\nlater\n```\nafter\n".to_string())
    );
    let outcome = state.save_from_shortcut("new", Ok(())).unwrap();

    assert_eq!(outcome, SaveRequestOutcome::Saved);
    assert!(!state.file_mode().is_dirty("new"));
}

#[test]
fn clean_quit_exits_immediately_without_prompt() {
    let mode = FileMode::from_existing_text("diagram.tg".to_string(), "same");
    let mut state = EditorState::new(mode);

    let request = state.begin_quit("same");

    assert_eq!(request, QuitRequest::ExitImmediately);
    assert!(!state.prompt_active());
}

#[test]
fn dirty_quit_prompt_can_be_cancelled_or_discarded() {
    let mode = FileMode::from_existing_text("diagram.tg".to_string(), "old");
    let mut state = EditorState::new(mode);

    let request = state.begin_quit("new");

    assert_eq!(request, QuitRequest::PromptOpened);
    assert_eq!(state.center_text(), Some(SAVE_PROMPT_TEXT));
    assert!(state.prompt_active());

    state.cancel_quit_prompt();
    assert!(!state.prompt_active());
    assert_eq!(state.center_text(), None);

    let request = state.begin_quit("new");
    assert_eq!(request, QuitRequest::PromptOpened);
    state.discard_quit_prompt();
    assert!(!state.prompt_active());
    assert_eq!(state.center_text(), None);
}

#[test]
fn save_from_quit_prompt_writes_file_and_clears_dirty_state() {
    let mode =
        FileMode::from_load_result("diagram.tg".to_string(), LoadedFile::Text("old".to_string()))
            .unwrap();
    let mut state = EditorState::new(mode);

    let request = state.begin_quit("new");
    assert_eq!(request, QuitRequest::PromptOpened);

    state.save_from_quit_prompt("new", Ok(())).unwrap();

    assert!(!state.file_mode().is_dirty("new"));
    assert!(!state.prompt_active());
    assert_eq!(state.center_text(), None);
}

#[test]
fn save_failure_from_quit_prompt_keeps_document_dirty_and_shows_message() {
    let path = "/tmp/tg-editor-state/missing-dir/diagram.tg".to_string();
    let mode = FileMode::PlainFile(PlainFileDocument::new(path, "old".to_string()));
    let mut state = EditorState::new(mode);

    let request = state.begin_quit("new");
    assert_eq!(request, QuitRequest::PromptOpened);

    let error = state
        .save_from_quit_prompt("new", Err("No such file or directory (os error 2)".to_string()))
        .unwrap_err();

    assert!(error.message().contains("failed to save"));
    assert_eq!(
        error.message(),
        "failed to save /tmp/tg-editor-state/missing-dir/diagram.tg: No such file or directory (os error 2)"
    );
    assert_eq!(state.center_text(), Some(SAVE_FAILED_TEXT));
    assert!(!state.prompt_active());
    assert!(state.file_mode().is_dirty("new"));
}

#[test]
fn save_shortcut_failure_keeps_editing_with_message() {
    let mode = FileMode::from_existing_text("d.tg".to_string(), "old");
    let mut state = EditorState::new(mode);
    let error = state.save_from_shortcut("new", Err("disk full".to_string())).unwrap_err();
    assert_eq!(error.message(), "failed to save d.tg: disk full");
    assert_eq!(state.center_text(), Some(SAVE_FAILED_TEXT));
    assert!(state.file_mode().is_dirty("new"));
}

#[test]
fn transient_message_clears_unless_prompt_is_up() {
    let mut state = EditorState::new(FileMode::scratch());
    state.save_from_shortcut("", Ok(())).unwrap();
    assert_eq!(state.center_text(), Some(NO_FILE_TO_SAVE_TEXT));
    state.clear_transient_message();
    assert_eq!(state.center_text(), None);

    let mut state = EditorState::new(FileMode::from_existing_text("d.tg".to_string(), "a"));
    state.begin_quit("b");
    state.clear_transient_message();
    assert_eq!(state.center_text(), Some(SAVE_PROMPT_TEXT));
}

#[test]
fn scratch_quit_never_prompts() {
    let mut state = EditorState::new(FileMode::scratch());
    assert_eq!(state.begin_quit("anything"), QuitRequest::ExitImmediately);
    assert!(!state.prompt_active());
}

#[test]
fn center_text_is_prompt_only_while_prompt_is_up() {
    let mut state = EditorState::new(FileMode::from_existing_text("d.tg".to_string(), "a"));
    state.save_from_shortcut("b", Err("no space".to_string())).unwrap_err();
    assert_eq!(state.center_text(), Some(SAVE_FAILED_TEXT));
    state.begin_quit("b");
    assert!(state.prompt_active());
    assert_eq!(state.center_text(), Some(SAVE_PROMPT_TEXT));
    state.cancel_quit_prompt();
    assert_eq!(state.center_text(), None);
}
