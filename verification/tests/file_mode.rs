use tg::file_mode::{FileLoadError, FileMode, LoadedFile, MarkdownBackedDocument, PlainFileDocument};

#[test]
fn existing_file_with_no_recognized_fence_loads_as_plain_text() {
    let mode = FileMode::from_existing_text(
        "notes.md".to_string(),
        "before\n```rust\nlet x = 1;\n```\nafter",
    );

    assert_eq!(
        mode,
        FileMode::PlainFile(PlainFileDocument::new(
            "notes.md".to_string(),
            "before\n```rust\nlet x = 1;\n```\nafter".to_string()
        ))
    );
}

#[test]
fn existing_file_with_recognized_fence_loads_first_fence_body_only() {
    let mode = FileMode::from_existing_text(
        "diagram.md".to_string(),
        "intro\n```textagram demo\n╭╮\n▽│\n━╯\n```\noutro\n",
    );

    let FileMode::MarkdownBacked(doc) = mode else {
        panic!("expected markdown-backed document");
    };

    assert_eq!(doc.before_first_fence(), "intro\n");
    assert_eq!(doc.opening_fence_line(), "```textagram demo\n");
    assert_eq!(doc.original_editable_text(), "╭╮\n▽│\n━╯");
    assert_eq!(doc.closing_fence_line(), "```\n");
    assert_eq!(doc.after_first_fence(), "outro\n");
}

#[test]
fn existing_file_with_multiple_recognized_fences_uses_first_one_only() {
    let mode = FileMode::from_existing_text(
        "diagram.md".to_string(),
        "```textagram\nfirst\n```\nmid\n```TEXTAGRAM\nsecond\n```\n",
    );

    let FileMode::MarkdownBacked(doc) = mode else {
        panic!("expected markdown-backed document");
    };

    assert_eq!(doc.original_editable_text(), "first");
    assert_eq!(doc.after_first_fence(), "mid\n```TEXTAGRAM\nsecond\n```\n");
}

#[test]
fn closing_fence_on_final_line_without_trailing_newline_is_parsed_once() {
    let mode = FileMode::from_existing_text(
        "diagram.md".to_string(),
        "before\n```textagram\nbody\n```",
    );

    let FileMode::MarkdownBacked(doc) = mode else {
        panic!("expected markdown-backed document");
    };

    assert_eq!(doc.before_first_fence(), "before\n");
    assert_eq!(doc.opening_fence_line(), "```textagram\n");
    assert_eq!(doc.original_editable_text(), "body");
    assert_eq!(doc.closing_fence_line(), "```");
    assert_eq!(doc.after_first_fence(), "");
}

#[test]
fn unclosed_recognized_fence_falls_back_to_plain_text() {
    let mode = FileMode::from_existing_text(
        "diagram.md".to_string(),
        "before\n```textagram\nbody\nstill body",
    );

    assert_eq!(
        mode,
        FileMode::PlainFile(PlainFileDocument::new(
            "diagram.md".to_string(),
            "before\n```textagram\nbody\nstill body".to_string()
        ))
    );
}

#[test]
fn markdown_reconstruction_preserves_unedited_regions() {
    let mode = FileMode::from_existing_text(
        "diagram.md".to_string(),
        "before\n```textagram\nold\n```\nmid\n```textagram\nlater\n```\nafter\n",
    );

    let FileMode::MarkdownBacked(doc) = mode else {
        panic!("expected markdown-backed document");
    };

    assert_eq!(
        doc.reconstruct_with("new"),
        "before\n```textagram\nnew\n```\nmid\n```textagram\nlater\n```\nafter\n"
    );
}

#[test]
fn missing_file_starts_as_blank_plain_diagram_document() {
    let path = "/tmp/tg-file-mode/fresh.md".to_string();

    let mode = FileMode::from_load_result(path.clone(), LoadedFile::Missing).unwrap();

    assert_eq!(
        mode,
        FileMode::PlainFile(PlainFileDocument::new(path, String::new()))
    );
}

#[test]
fn directory_path_is_rejected() {
    let path = "/tmp/tg-file-mode".to_string();

    let error = FileMode::from_load_result(path.clone(), LoadedFile::Directory).unwrap_err();

    assert_eq!(
        error.message(),
        format!("{} is a directory; expected a text file", path)
    );
}

#[test]
fn newline_normalization_happens_on_load() {
    let mode = FileMode::from_existing_text("diagram.txt".to_string(), "one\r\ntwo\rthree");

    assert_eq!(mode.original_editable_text(), "one\ntwo\nthree");
}

#[test]
fn dirty_tracking_compares_current_text_to_original_editable_text() {
    let plain = FileMode::from_existing_text("diagram.txt".to_string(), "abc");
    assert!(!plain.is_dirty("abc"));
    assert!(plain.is_dirty("abd"));

    let markdown =
        FileMode::from_existing_text("diagram.md".to_string(), "```textagram\nabc\n```\n");
    assert!(!markdown.is_dirty("abc"));
    assert!(markdown.is_dirty("abd"));

    let scratch = FileMode::scratch();
    assert!(!scratch.is_dirty("anything"));
}

#[test]
fn save_payload_uses_whole_text_for_plain_files() {
    let mode = FileMode::from_existing_text("diagram.txt".to_string(), "old");

    assert_eq!(mode.save_payload("new"), Some("new".to_string()));
}

#[test]
fn save_payload_reconstructs_only_first_recognized_fence_body() {
    let mode = FileMode::from_existing_text(
        "diagram.md".to_string(),
        "before\n```textagram\nold\n```\nafter\n",
    );

    assert_eq!(
        mode.save_payload("new"),
        Some("before\n```textagram\nnew\n```\nafter\n".to_string())
    );
}

#[test]
fn mark_saved_refreshes_dirty_baseline() {
    let mut mode = FileMode::from_existing_text("diagram.txt".to_string(), "old");

    assert!(mode.is_dirty("new"));
    mode.mark_saved("new".to_string());
    assert!(!mode.is_dirty("new"));
}

#[test]
fn non_utf8_file_is_rejected() {
    let path = "/tmp/tg-file-mode/bad.txt".to_string();

    let error = FileMode::from_load_result(
        path.clone(),
        LoadedFile::Unreadable("stream did not contain valid UTF-8".to_string()),
    )
    .unwrap_err();

    assert!(error.message().contains(&format!("failed to read {}", path)));
}

#[test]
fn readable_file_loads_through_existing_text_rules() {
    let mode = FileMode::from_load_result(
        "diagram.md".to_string(),
        LoadedFile::Text("a\r\n```textagram\r\nx\r\n```\r\n".to_string()),
    )
    .unwrap();

    assert_eq!(
        mode,
        FileMode::MarkdownBacked(MarkdownBackedDocument::new(
            "diagram.md".to_string(),
            "a\n".to_string(),
            "```textagram\n".to_string(),
            "x".to_string(),
            "```\n".to_string(),
            String::new(),
        ))
    );
}

#[test]
fn read_error_message_names_path_and_reason() {
    let error = FileLoadError::Read {
        path: "a.txt".to_string(),
        reason: "permission denied".to_string(),
    };
    assert_eq!(error.message(), "failed to read a.txt: permission denied");
}

#[test]
fn indented_fence_with_info_words_and_mixed_case_is_recognized() {
    let mode = FileMode::from_existing_text(
        "d.md".to_string(),
        "x\n  ```  TextAgram  extra\nbody\n   ```\ny",
    );
    let FileMode::MarkdownBacked(doc) = mode else {
        panic!("expected markdown-backed document");
    };
    assert_eq!(doc.before_first_fence(), "x\n");
    assert_eq!(doc.opening_fence_line(), "  ```  TextAgram  extra\n");
    assert_eq!(doc.original_editable_text(), "body");
    assert_eq!(doc.closing_fence_line(), "   ```\n");
    assert_eq!(doc.after_first_fence(), "y");
}

#[test]
fn label_prefix_or_longer_word_is_not_recognized() {
    for text in [
        "```textagrams\nbody\n```\n",
        "```textagra\nbody\n```\n",
        "```\nbody\n```\n",
        "``textagram\nbody\n```\n",
    ] {
        let mode = FileMode::from_existing_text("d.md".to_string(), text);
        assert!(matches!(mode, FileMode::PlainFile(_)), "{text}");
    }
}

#[test]
fn empty_fence_body_round_trips() {
    let mode = FileMode::from_existing_text("d.md".to_string(), "```textagram\n```\n");
    assert_eq!(mode.original_editable_text(), "");
    assert_eq!(mode.save_payload(""), Some("```textagram\n```\n".to_string()));
}

#[test]
fn body_ending_in_blank_line_is_not_restored_by_unedited_save() {
    let mode = FileMode::from_existing_text("d.md".to_string(), "```textagram\n\n```\n");
    assert_eq!(mode.original_editable_text(), "");
    assert_eq!(mode.save_payload(""), Some("```textagram\n```\n".to_string()));
}

#[test]
fn scratch_has_no_path_and_no_payload() {
    let mode = FileMode::scratch();
    assert_eq!(mode.path(), None);
    assert_eq!(mode.save_payload("x"), None);
    assert_eq!(mode.original_editable_text(), "");
}
