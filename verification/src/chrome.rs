//! Title chrome owned by the host: the `tg` title with a file chip, and the
//! top-center text.
use vstd::prelude::*;

use crate::file_mode::{mode_dirty, mode_original, mode_path, FileMode};
use crate::render::{RenderLine, RenderSegment, SemanticStyle};
use crate::text::{owned, string_push, string_push_str};

verus! {

/// The title at the top left.
pub const TG_TITLE_TEXT: &'static str = " tg ";

/// What opens the file chip.
pub const CHIP_PREFIX_TEXT: &'static str = "─╴";

/// What closes the file chip.
pub const CHIP_SUFFIX_TEXT: &'static str = "╶";

/// Title lines the host lays over the core's frame.
#[derive(Debug, Clone, PartialEq, Eq)]
pub struct ChromeOverrides {
    pub left_title: Option<RenderLine>,
    pub top_center: Option<RenderLine>,
}

/// The last component of `path`, as `Path::file_name` finds it (lossily as text).
/// It is named rather than stated because the path syntax it follows is the
/// target platform's: on Unix a few lines would state it, but on Windows drive and
/// UNC prefixes and `\\` separators take part too.
pub uninterp spec fn path_file_name(path: Seq<char>) -> Option<Seq<char>>;

/// `Path::file_name` of `path`, converted to text with `to_string_lossy`.
#[verifier::external_body]
fn file_name_of(path: &str) -> (r: Option<String>)
    ensures
        match r {
            Some(n) => path_file_name(path@) == Some(n@),
            None => path_file_name(path@) is None,
        },
{
    std::path::Path::new(path).file_name().map(|name| name.to_string_lossy().into_owned())
}

/// A line's segments as text and style.
pub open spec fn line_view(line: RenderLine) -> Seq<(Seq<char>, SemanticStyle)> {
    line.segments@.map_values(|s: RenderSegment| (s.text@, s.style))
}

/// The file chip label: the file name (the whole path when it has none), with a
/// `*` when the document is dirty; none in scratch mode.
pub open spec fn label_of(m: crate::file_mode::FileModeView, current: Seq<char>) -> Option<
    Seq<char>,
> {
    match mode_path(m) {
        None => None,
        Some(p) => {
            let base = match path_file_name(p) {
                Some(n) => n,
                None => p,
            };
            if mode_dirty(m, current) {
                Some(base.push('*'))
            } else {
                Some(base)
            }
        },
    }
}

/// The left title: ` tg `, then the file chip when there is a label.
pub open spec fn left_title_of(m: crate::file_mode::FileModeView, current: Seq<char>) -> Seq<
    (Seq<char>, SemanticStyle),
> {
    seq![(TG_TITLE_TEXT@, SemanticStyle::Plain)] + match label_of(m, current) {
        Some(l) => seq![
            (CHIP_PREFIX_TEXT@, SemanticStyle::Plain),
            (l, SemanticStyle::Plain),
            (CHIP_SUFFIX_TEXT@, SemanticStyle::Plain),
        ],
        None => Seq::empty(),
    }
}

/// The title overrides with no top-center text.
pub fn chrome_overrides(file_mode: &FileMode, current_editable_text: &str) -> (c: ChromeOverrides)
    ensures
        c.left_title matches Some(l) && line_view(l) == left_title_of(
            file_mode@,
            current_editable_text@,
        ),
        c.top_center is None,
{
    chrome_overrides_with_center(file_mode, current_editable_text, None)
}

/// The title overrides: the left title, and the top-center text, padded with a
/// space on each side in the help-heading style, when there is one.
pub fn chrome_overrides_with_center(
    file_mode: &FileMode,
    current_editable_text: &str,
    center_text: Option<&str>,
) -> (c: ChromeOverrides)
    ensures
        c.left_title matches Some(l) && line_view(l) == left_title_of(
            file_mode@,
            current_editable_text@,
        ),
        match center_text {
            Some(t) => c.top_center matches Some(l) && line_view(l) == seq![
                (" "@ + t@ + " "@, SemanticStyle::HelpHeading),
            ],
            None => c.top_center is None,
        },
{
    let top_center = match center_text {
        Some(t) => Some(center_title_line(t)),
        None => None,
    };
    ChromeOverrides {
        left_title: Some(left_title_line(file_mode, current_editable_text)),
        top_center,
    }
}

fn left_title_line(file_mode: &FileMode, current_editable_text: &str) -> (l: RenderLine)
    ensures
        line_view(l) == left_title_of(file_mode@, current_editable_text@),
{
    let mut segments: Vec<RenderSegment> = Vec::new();
    segments.push(plain_segment(TG_TITLE_TEXT));
    let ghost head = segments@;
    if let Some(label) = file_label(file_mode, current_editable_text) {
        push_chip(&mut segments, label.as_str());
    }
    let l = RenderLine { segments };
    assert(line_view(l) =~= left_title_of(file_mode@, current_editable_text@));
    l
}

/// The file chip label of the document.
pub fn file_label(file_mode: &FileMode, current_editable_text: &str) -> (r: Option<String>)
    ensures
        match r {
            Some(l) => label_of(file_mode@, current_editable_text@) == Some(l@),
            None => label_of(file_mode@, current_editable_text@) is None,
        },
{
    let path = match file_mode.path() {
        Some(p) => p,
        None => {
            return None;
        },
    };
    let mut base = match file_name_of(path) {
        Some(name) => name,
        None => owned(path),
    };
    if file_mode.is_dirty(current_editable_text) {
        string_push(&mut base, '*');
    }
    Some(base)
}

fn push_chip(segments: &mut Vec<RenderSegment>, label: &str)
    ensures
        final(segments)@.map_values(|s: RenderSegment| (s.text@, s.style)) == old(
            segments,
        )@.map_values(|s: RenderSegment| (s.text@, s.style)) + seq![
            (CHIP_PREFIX_TEXT@, SemanticStyle::Plain),
            (label@, SemanticStyle::Plain),
            (CHIP_SUFFIX_TEXT@, SemanticStyle::Plain),
        ],
{
    segments.push(plain_segment(CHIP_PREFIX_TEXT));
    segments.push(plain_segment(label));
    segments.push(plain_segment(CHIP_SUFFIX_TEXT));
    assert(segments@.map_values(|s: RenderSegment| (s.text@, s.style)) =~= old(
        segments,
    )@.map_values(|s: RenderSegment| (s.text@, s.style)) + seq![
        (CHIP_PREFIX_TEXT@, SemanticStyle::Plain),
        (label@, SemanticStyle::Plain),
        (CHIP_SUFFIX_TEXT@, SemanticStyle::Plain),
    ]);
}

fn plain_segment(text: &str) -> (s: RenderSegment)
    ensures
        s.text@ == text@,
        s.style == SemanticStyle::Plain,
{
    RenderSegment { text: owned(text), style: SemanticStyle::Plain }
}

fn center_title_line(text: &str) -> (l: RenderLine)
    ensures
        line_view(l) == seq![(" "@ + text@ + " "@, SemanticStyle::HelpHeading)],
{
    let mut padded = String::new();
    string_push_str(&mut padded, " ");
    string_push_str(&mut padded, text);
    string_push_str(&mut padded, " ");
    let mut segments: Vec<RenderSegment> = Vec::new();
    segments.push(RenderSegment { text: padded, style: SemanticStyle::HelpHeading });
    let l = RenderLine { segments };
    assert(line_view(l) =~= seq![(" "@ + text@ + " "@, SemanticStyle::HelpHeading)]);
    l
}

/// A document without a backing file has no chip. A file-backed document, plain
/// or markdown, has one: its file name (the whole path when it has none), with
/// a `*` added exactly when the diagram differs from what was last loaded or
/// saved.
pub proof fn law_file_chip_marks_unsaved_changes(
    m: crate::file_mode::FileModeView,
    current: Seq<char>,
)
    ensures
        mode_path(m) is None ==> label_of(m, current) is None,
        mode_path(m) matches Some(p) ==> label_of(m, current) == Some(
            {
                let base = match path_file_name(p) {
                    Some(n) => n,
                    None => p,
                };
                if mode_original(m) != current {
                    base.push('*')
                } else {
                    base
                }
            },
        ),
{
}

} // verus!
