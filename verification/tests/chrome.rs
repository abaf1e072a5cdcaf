use tg::chrome::{chrome_overrides, chrome_overrides_with_center, file_label};
use tg::file_mode::{FileMode, MarkdownBackedDocument, PlainFileDocument};
use tg::render::{RenderLine, SemanticStyle};

fn flatten_render_line_text(line: &RenderLine) -> String {
    line.segments
        .iter()
        .map(|segment| segment.text.as_str())
        .collect::<String>()
}

#[test]
fn scratch_left_title_is_just_tg() {
    let overrides = chrome_overrides(&FileMode::scratch(), "");

    assert_eq!(
        flatten_render_line_text(overrides.left_title.as_ref().expect("left title")),
        " tg "
    );
}

#[test]
fn plain_file_left_title_uses_dirty_file_chip() {
    let mode = FileMode::PlainFile(PlainFileDocument::new(
        "docs/MyDiagram.tg".into(),
        "old".to_string(),
    ));

    let overrides = chrome_overrides(&mode, "new");

    assert_eq!(
        flatten_render_line_text(overrides.left_title.as_ref().expect("left title")),
        " tg ─╴MyDiagram.tg*╶"
    );
}

#[test]
fn markdown_file_left_title_uses_same_file_chip_as_plain_file_mode() {
    let mode = FileMode::MarkdownBacked(MarkdownBackedDocument::new(
        "docs/MyDoc.md".into(),
        "before\n".to_string(),
        "```textagram\n".to_string(),
        "body".to_string(),
        "```\n".to_string(),
        "after\n".to_string(),
    ));

    let overrides = chrome_overrides(&mode, "body");

    assert_eq!(
        flatten_render_line_text(overrides.left_title.as_ref().expect("left title")),
        " tg ─╴MyDoc.md╶"
    );
}

#[test]
fn center_text_is_padded_help_heading() {
    let overrides =
        chrome_overrides_with_center(&FileMode::scratch(), "", Some("save changes? y/n/esc"));
    let center = overrides.top_center.expect("top center");
    assert_eq!(center.segments.len(), 1);
    assert_eq!(center.segments[0].text, " save changes? y/n/esc ");
    assert_eq!(center.segments[0].style, SemanticStyle::HelpHeading);
    assert!(chrome_overrides(&FileMode::scratch(), "").top_center.is_none());
}

#[test]
fn file_label_without_file_name_falls_back_to_path() {
    let mode = FileMode::PlainFile(PlainFileDocument::new("..".into(), String::new()));
    assert_eq!(file_label(&mode, ""), Some("..".to_string()));
    let mode = FileMode::PlainFile(PlainFileDocument::new("a/b/c.txt".into(), String::new()));
    assert_eq!(file_label(&mode, "x"), Some("c.txt*".to_string()));
    assert_eq!(file_label(&FileMode::scratch(), "x"), None);
}
