//! Concrete instances of the library's proved laws.
use tg::file_mode::FileMode;

#[test]
fn saved_markdown_reloads_with_saved_diagram() {
    let text = "intro\r\n```textagram x\r\nold\r\n```\r\nrest\n";
    let mode = FileMode::from_existing_text("d.md".to_string(), text);
    let payload = mode.save_payload("new\nlines").unwrap();
    let reloaded = FileMode::from_existing_text("d.md".to_string(), &payload);
    let mut saved = mode.clone();
    saved.mark_saved("new\nlines".to_string());
    assert_eq!(reloaded, saved);
}

#[test]
fn saved_plain_file_reloads_with_saved_diagram() {
    let mode = FileMode::from_existing_text("d.txt".to_string(), "old");
    let payload = mode.save_payload("┏━┓\n┗━┛").unwrap();
    let reloaded = FileMode::from_existing_text("d.txt".to_string(), &payload);
    let mut saved = mode.clone();
    saved.mark_saved("┏━┓\n┗━┛".to_string());
    assert_eq!(reloaded, saved);
}

#[test]
fn unedited_markdown_save_writes_back_the_loaded_text() {
    let text = "a\n```textagram\nx\ny\n```\nb";
    let mode = FileMode::from_existing_text("d.md".to_string(), text);
    let original = mode.original_editable_text().to_string();
    assert_eq!(mode.save_payload(&original), Some(text.to_string()));
}

#[test]
fn saved_diagram_is_clean() {
    let mut mode = FileMode::from_existing_text("d.md".to_string(), "```textagram\nx\n```\n");
    mode.mark_saved("y".to_string());
    assert!(!mode.is_dirty("y"));
    assert!(mode.is_dirty("x"));
}
