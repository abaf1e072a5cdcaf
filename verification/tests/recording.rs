use tg::keys::{AppKeyCode, AppKeyEvent, AppKeyModifiers};
use tg::recording::{
    after_core_action, AfterCoreAction,
    format_e2e_recording, grow_recording_size, grow_recording_size_including_cursor,
    keyspec_for_processed_key, markdown_fence_for, max_backtick_run,
    occupied_recording_size_including_cursor, recording_lines_for_size, ActionFlags,
    CanvasSnapshot, CropBounds,
};

fn continue_action() -> ActionFlags {
    ActionFlags { record_and_exit: false, reset_recording_baseline: false }
}

#[test]
fn recording_lines_pad_to_requested_size() {
    let snapshot = CanvasSnapshot {
        glyphs: vec!["ab".to_string(), "c ".to_string()],
        origin: (0, 0),
        size: (2, 2),
    };

    let lines = recording_lines_for_size(&snapshot, (4, 3));

    assert_eq!(lines, vec!["ab..", "c...", "...."]);
}

#[test]
fn grow_recording_size_tracks_largest_origin_preserving_crop() {
    // the occupied part of ["ab ", " c ", "   "] cropped with its origin kept
    let cropped = CropBounds { origin: (0, 0), size: (2, 2) };
    let mut recorded_size = (1, 1);

    grow_recording_size(&mut recorded_size, cropped);

    assert_eq!(recorded_size, (2, 2));
}

#[test]
fn occupied_recording_size_including_cursor_preserves_blank_cell_to_the_right() {
    // the occupied part of ["abcd    "] cropped with its origin kept
    let cropped = CropBounds { origin: (0, 0), size: (4, 1) };

    let size = occupied_recording_size_including_cursor(cropped, (4, 0));

    assert_eq!(size, (5, 1));
}

#[test]
fn grow_recording_size_including_cursor_tracks_blank_cursor_column() {
    let cropped = CropBounds { origin: (0, 0), size: (4, 1) };
    let mut recorded_size = (1, 1);

    grow_recording_size_including_cursor(&mut recorded_size, cropped, (4, 0));

    assert_eq!(recorded_size, (5, 1));
}

#[test]
fn keyspec_for_processed_key_omits_global_record_shortcut() {
    let key = AppKeyEvent::new(AppKeyCode::Char('Q'), AppKeyModifiers::none());
    let record_and_exit = ActionFlags { record_and_exit: true, reset_recording_baseline: false };
    assert_eq!(keyspec_for_processed_key(key, record_and_exit), None);
}

#[test]
fn keyspec_for_processed_key_omits_recording_reset_shortcut() {
    let key = AppKeyEvent::new(AppKeyCode::Char('R'), AppKeyModifiers::none());
    let reset = ActionFlags { record_and_exit: false, reset_recording_baseline: true };
    assert_eq!(keyspec_for_processed_key(key, reset), None);
}

#[test]
fn keyspec_for_processed_key_keeps_literal_q_in_text_flow() {
    let key = AppKeyEvent::new(AppKeyCode::Char('Q'), AppKeyModifiers::none());
    assert_eq!(
        keyspec_for_processed_key(key, continue_action()),
        Some("Q".to_string())
    );
}

#[test]
fn format_e2e_recording_includes_clipboard_block_when_present() {
    let content = format_e2e_recording(
        "hjkl",
        &vec!["abc".to_string()],
        Some((2, 3)),
        Some("copied"),
        &vec!["xyz".to_string()],
    );

    assert!(content.contains("**Cursor** 2 3"));
    assert!(content.contains("**Clipboard**"));
    assert!(content.contains("```\ncopied\n```"));
}

#[test]
fn format_e2e_recording_uses_longer_clipboard_fence_when_needed() {
    let content = format_e2e_recording(
        "p",
        &vec!["...".to_string()],
        Some((0, 0)),
        Some("```textagram\n┏━┓\n```"),
        &vec!["┏━┓".to_string()],
    );

    assert!(content.contains("**Clipboard**\n````\n```textagram\n┏━┓\n```\n````"));
}

#[test]
fn format_e2e_recording_omits_clipboard_block_when_empty() {
    let content = format_e2e_recording(
        "hjkl",
        &vec!["abc".to_string()],
        Some((0, 0)),
        Some(""),
        &vec!["xyz".to_string()],
    );

    assert!(!content.contains("**Clipboard**"));
}

#[test]
fn format_e2e_recording_whole_scenario() {
    let content = format_e2e_recording(
        "j<enter>",
        &vec!["a.".to_string(), "..".to_string()],
        Some((12, 305)),
        None,
        &vec!["b.".to_string()],
    );
    assert_eq!(
        content,
        "## Scenario: Recorded session\n\n**Given**\n```\na.\n..\n```\n\n**Cursor** 12 305\n\n**Keys**\n```\nj<enter>\n```\n\n**Expect**\n```\nb.\n```\n"
    );
}

#[test]
fn fence_is_one_longer_than_longest_backtick_run() {
    assert_eq!(max_backtick_run("a`b``c````d"), 4);
    assert_eq!(markdown_fence_for("a`b``c````d"), "`````");
    assert_eq!(markdown_fence_for("no ticks"), "```");
    assert_eq!(max_backtick_run(""), 0);
}

#[test]
fn keyspecs_name_special_keys() {
    let shift_left = AppKeyEvent::new(AppKeyCode::Left, AppKeyModifiers::shift());
    assert_eq!(
        keyspec_for_processed_key(shift_left, continue_action()),
        Some("<shift-left>".to_string())
    );
    let enter = AppKeyEvent::new(AppKeyCode::Enter, AppKeyModifiers::none());
    assert_eq!(
        keyspec_for_processed_key(enter, continue_action()),
        Some("<enter>".to_string())
    );
    let tab = AppKeyEvent::new(AppKeyCode::Tab, AppKeyModifiers::none());
    assert_eq!(keyspec_for_processed_key(tab, continue_action()), None);
}

#[test]
fn cursor_before_crop_origin_does_not_grow_size() {
    let cropped = CropBounds { origin: (3, 3), size: (2, 2) };
    assert_eq!(occupied_recording_size_including_cursor(cropped, (1, 9)), (2, 7));
}

#[test]
fn after_core_action_orders_reset_record_exit() {
    let both = ActionFlags { record_and_exit: true, reset_recording_baseline: true };
    assert_eq!(after_core_action(both, true), AfterCoreAction::ResetBaseline);
    let record = ActionFlags { record_and_exit: true, reset_recording_baseline: false };
    assert_eq!(after_core_action(record, true), AfterCoreAction::RecordAndExit);
    assert_eq!(after_core_action(continue_action(), true), AfterCoreAction::Exit);
    assert_eq!(after_core_action(continue_action(), false), AfterCoreAction::GrowRecording);
}
