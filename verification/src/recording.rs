//! Session recordings: replay tokens for keys, the recorded area, and the
//! markdown scenario a recording is written as.
use vstd::prelude::*;

use crate::keys::{AppKeyCode, AppKeyEvent};
use crate::text::{chars_of, owned, string_push, string_push_str};

verus! {

broadcast use vstd::seq_lib::group_seq_properties;

/// What the core said about a processed key, as far as recording cares.
#[derive(Debug, Clone, Copy, PartialEq, Eq)]
pub struct ActionFlags {
    /// The key asked to write the recording and exit.
    pub record_and_exit: bool,
    /// The key asked to restart the recording from the current canvas.
    pub reset_recording_baseline: bool,
}

/// The replay token of a key, if it has one.
pub open spec fn keyspec_of(e: AppKeyEvent) -> Option<Seq<char>> {
    match e.code {
        AppKeyCode::Char(c) => Some(seq![c]),
        AppKeyCode::Enter => Some("<enter>"@),
        AppKeyCode::Esc => Some("<esc>"@),
        AppKeyCode::Left => Some(if e.modifiers.shift { "<shift-left>"@ } else { "<left>"@ }),
        AppKeyCode::Right => Some(if e.modifiers.shift { "<shift-right>"@ } else { "<right>"@ }),
        AppKeyCode::Up => Some(if e.modifiers.shift { "<shift-up>"@ } else { "<up>"@ }),
        AppKeyCode::Down => Some(if e.modifiers.shift { "<shift-down>"@ } else { "<down>"@ }),
        AppKeyCode::Backspace => Some("<backspace>"@),
        _ => None,
    }
}

/// A character key is replayed as itself; each arrow key as its own name, with a
/// `shift-` prefix exactly when shift is held; `Enter`, `Esc` and `Backspace` by
/// their names; other keys are not replayed.
pub proof fn law_keyspecs_name_their_keys(e: AppKeyEvent)
    ensures
        forall|c: char| e.code == AppKeyCode::Char(c) ==> keyspec_of(e) == Some(seq![c]),
        e.code == AppKeyCode::Enter ==> keyspec_of(e) == Some("<enter>"@),
        e.code == AppKeyCode::Esc ==> keyspec_of(e) == Some("<esc>"@),
        e.code == AppKeyCode::Backspace ==> keyspec_of(e) == Some("<backspace>"@),
        e.code == AppKeyCode::Left ==> keyspec_of(e) == Some(
            if e.modifiers.shift {
                "<shift-left>"@
            } else {
                "<left>"@
            },
        ),
        e.code == AppKeyCode::Right ==> keyspec_of(e) == Some(
            if e.modifiers.shift {
                "<shift-right>"@
            } else {
                "<right>"@
            },
        ),
        e.code == AppKeyCode::Up ==> keyspec_of(e) == Some(
            if e.modifiers.shift {
                "<shift-up>"@
            } else {
                "<up>"@
            },
        ),
        e.code == AppKeyCode::Down ==> keyspec_of(e) == Some(
            if e.modifiers.shift {
                "<shift-down>"@
            } else {
                "<down>"@
            },
        ),
        e.code == AppKeyCode::Tab || e.code == AppKeyCode::PageUp || e.code
            == AppKeyCode::PageDown || e.code == AppKeyCode::Null ==> keyspec_of(e) is None,
{
}

fn key_event_to_keyspec(key_event: AppKeyEvent) -> (r: Option<String>)
    ensures
        match r {
            Some(s) => keyspec_of(key_event) == Some(s@),
            None => keyspec_of(key_event) is None,
        },
{
    let shift = key_event.modifiers.shift;
    match key_event.code {
        AppKeyCode::Char(c) => {
            let mut s = String::new();
            string_push(&mut s, c);
            assert(s@ =~= seq![c]);
            Some(s)
        },
        AppKeyCode::Enter => Some(owned("<enter>")),
        AppKeyCode::Esc => Some(owned("<esc>")),
        AppKeyCode::Left => Some(
            if shift {
                owned("<shift-left>")
            } else {
                owned("<left>")
            },
        ),
        AppKeyCode::Right => Some(
            if shift {
                owned("<shift-right>")
            } else {
                owned("<right>")
            },
        ),
        AppKeyCode::Up => Some(
            if shift {
                owned("<shift-up>")
            } else {
                owned("<up>")
            },
        ),
        AppKeyCode::Down => Some(
            if shift {
                owned("<shift-down>")
            } else {
                owned("<down>")
            },
        ),
        AppKeyCode::Backspace => Some(owned("<backspace>")),
        _ => None,
    }
}

/// The replay token of a processed key; keys that control the recording itself
/// have none.
pub fn keyspec_for_processed_key(key_event: AppKeyEvent, action: ActionFlags) -> (r: Option<String>)
    ensures
        action.record_and_exit || action.reset_recording_baseline ==> r is None,
        !(action.record_and_exit || action.reset_recording_baseline) ==> match r {
            Some(s) => keyspec_of(key_event) == Some(s@),
            None => keyspec_of(key_event) is None,
        },
{
    if action.record_and_exit || action.reset_recording_baseline {
        None
    } else {
        key_event_to_keyspec(key_event)
    }
}

/// What the host does once the core has handled a key.
#[derive(Debug, Clone, Copy, PartialEq, Eq)]
pub enum AfterCoreAction {
    /// Restart the recording from the current canvas, clipboard and cursor.
    ResetBaseline,
    /// Grow the recorded area to the final canvas, write the recording, and exit.
    RecordAndExit,
    /// Exit without writing a recording.
    Exit,
    /// Keep running, growing the recorded area to the current canvas and cursor.
    GrowRecording,
}

/// The host's next step after the core's action: a baseline reset comes first,
/// then recording and exiting, then a plain exit; otherwise the session goes on.
pub fn after_core_action(action: ActionFlags, exit_requested: bool) -> (step: AfterCoreAction)
    ensures
        step == if action.reset_recording_baseline {
            AfterCoreAction::ResetBaseline
        } else if action.record_and_exit {
            AfterCoreAction::RecordAndExit
        } else if exit_requested {
            AfterCoreAction::Exit
        } else {
            AfterCoreAction::GrowRecording
        },
{
    if action.reset_recording_baseline {
        AfterCoreAction::ResetBaseline
    } else if action.record_and_exit {
        AfterCoreAction::RecordAndExit
    } else if exit_requested {
        AfterCoreAction::Exit
    } else {
        AfterCoreAction::GrowRecording
    }
}

/// Number of backticks directly before position `i` of `s`.
pub open spec fn trailing_backticks(s: Seq<char>, i: int) -> nat
    decreases i,
{
    if i <= 0 || i > s.len() {
        0
    } else if s[i - 1] == '`' {
        trailing_backticks(s, i - 1) + 1
    } else {
        0
    }
}

/// The longest run of backticks within the first `i` characters of `s`.
pub open spec fn longest_backticks_upto(s: Seq<char>, i: int) -> nat
    decreases i,
{
    if i <= 0 {
        0
    } else {
        let a = longest_backticks_upto(s, i - 1);
        let b = trailing_backticks(s, i);
        if a >= b {
            a
        } else {
            b
        }
    }
}

/// The longest run of consecutive backticks in `s`.
pub open spec fn longest_backtick_run(s: Seq<char>) -> nat {
    longest_backticks_upto(s, s.len() as int)
}

/// The `k` characters of `s` from `i` on are all backticks.
pub open spec fn backticks_at(s: Seq<char>, i: int, k: nat) -> bool {
    0 <= i && i + k <= s.len() && forall|m: int| i <= m < i + k ==> s[m] == '`'
}

/// `s` holds `k` consecutive backticks somewhere.
pub open spec fn has_backtick_run(s: Seq<char>, k: nat) -> bool {
    exists|i: int| #[trigger] backticks_at(s, i, k)
}

/// Length of the fence around `s`: one more backtick than its longest run, and at least three.
pub open spec fn fence_len(s: Seq<char>) -> nat {
    let n = longest_backtick_run(s) + 1;
    let n = if n > usize::MAX {
        usize::MAX as nat
    } else {
        n
    };
    if n < 3 {
        3
    } else {
        n
    }
}

/// The fence around `s`.
pub open spec fn fence_of(s: Seq<char>) -> Seq<char> {
    Seq::new(fence_len(s), |k: int| '`')
}

/// Length of the longest run of backticks in `text`.
pub fn max_backtick_run(text: &str) -> (r: usize)
    ensures
        r == longest_backtick_run(text@),
{
    let v = chars_of(text);
    let mut max_run: usize = 0;
    let mut current_run: usize = 0;
    let mut i: usize = 0;
    while i < v.len()
        invariant
            0 <= i <= v.len(),
            v@ == text@,
            current_run == trailing_backticks(v@, i as int),
            max_run == longest_backticks_upto(v@, i as int),
            current_run <= i,
            max_run <= i,
        decreases v.len() - i,
    {
        if v[i] == '`' {
            current_run = current_run + 1;
            if max_run < current_run {
                max_run = current_run;
            }
        } else {
            current_run = 0;
        }
        i = i + 1;
    }
    max_run
}

/// The shortest backtick fence, at least three long, that no backtick run of `text` closes.
pub fn markdown_fence_for(text: &str) -> (f: String)
    ensures
        f@ == fence_of(text@),
{
    let run = max_backtick_run(text).saturating_add(1);
    let n = if run < 3 {
        3
    } else {
        run
    };
    let mut f = String::new();
    let mut k: usize = 0;
    while k < n
        invariant
            0 <= k <= n,
            n == fence_len(text@),
            f@ == Seq::new(k as nat, |m: int| '`'),
        decreases n - k,
    {
        string_push(&mut f, '`');
        assert(f@ =~= Seq::new((k + 1) as nat, |m: int| '`'));
        k = k + 1;
    }
    f
}

/// A run of backticks ends no later than where `trailing_backticks` counts from.
proof fn lemma_trailing_backticks(s: Seq<char>, i: int)
    requires
        0 <= i <= s.len(),
    ensures
        trailing_backticks(s, i) <= i,
        forall|m: int| i - trailing_backticks(s, i) <= m < i ==> s[m] == '`',
        i - trailing_backticks(s, i) > 0 ==> s[i - trailing_backticks(s, i) - 1] != '`',
    decreases i,
{
    if i > 0 && s[i - 1] == '`' {
        lemma_trailing_backticks(s, i - 1);
    }
}

/// Every run of backticks within the first `i` characters is at most the longest,
/// and the longest occurs.
proof fn lemma_longest_backticks(s: Seq<char>, i: int)
    requires
        0 <= i <= s.len(),
    ensures
        longest_backticks_upto(s, i) <= i,
        longest_backticks_upto(s, i) == 0 || has_backtick_run(s, longest_backticks_upto(s, i)),
        forall|j: int, k: nat|
            j + k <= i && k > longest_backticks_upto(s, i) ==> !#[trigger] backticks_at(s, j, k),
    decreases i,
{
    if i > 0 {
        lemma_longest_backticks(s, i - 1);
        lemma_trailing_backticks(s, i);
        let t = trailing_backticks(s, i);
        let l = longest_backticks_upto(s, i);
        if t > 0 && l == t {
            assert(backticks_at(s, i - t, t));
        }
        assert forall|j: int, k: nat| j + k <= i && k > l implies !#[trigger] backticks_at(
            s,
            j,
            k,
        ) by {
            if j + k == i && backticks_at(s, j, k) {
                let m = i - t - 1;
                assert(j <= m < j + k);
                assert(s[m] != '`');
            }
        }
    }
}

/// The fence of a recording block is at least three backticks long and longer
/// than every backtick run in the fenced text, so the text cannot close it early
/// (for texts whose longest run is shorter than `usize::MAX`).
pub proof fn law_fence_outruns_text(s: Seq<char>)
    requires
        longest_backtick_run(s) < usize::MAX,
    ensures
        fence_len(s) >= 3,
        fence_len(s) > longest_backtick_run(s),
        !has_backtick_run(s, fence_len(s)),
        forall|k: int| 0 <= k < fence_of(s).len() ==> fence_of(s)[k] == '`',
{
    lemma_longest_backticks(s, s.len() as int);
    let n = fence_len(s);
    if has_backtick_run(s, n) {
        let i = choose|i: int| #[trigger] backticks_at(s, i, n);
        assert(backticks_at(s, i, n));
    }
}

/// The decimal digits of `n`.
pub open spec fn decimal(n: nat) -> Seq<char>
    decreases n,
{
    if n < 10 {
        seq![(48 + n) as char]
    } else {
        decimal(n / 10).push((48 + n % 10) as char)
    }
}

fn push_decimal(s: &mut String, n: u16)
    ensures
        final(s)@ == old(s)@ + decimal(n as nat),
    decreases n,
{
    if n >= 10 {
        push_decimal(s, n / 10);
    }
    let d = (n % 10) as u8;
    string_push(s, (d + 48) as char);
    assert(final(s)@ =~= old(s)@ + decimal(n as nat)) by {
        if n >= 10 {
            assert(decimal(n as nat) == decimal((n / 10) as nat).push((48 + n % 10) as char));
        }
    }
}

/// Lines joined with line feeds (`[String]::join("\n")`).
pub open spec fn joined_lines(lines: Seq<Seq<char>>) -> Seq<char>
    decreases lines.len(),
{
    if lines.len() == 0 {
        Seq::empty()
    } else if lines.len() == 1 {
        lines[0]
    } else {
        joined_lines(lines.drop_last()) + seq!['\n'] + lines.last()
    }
}

/// Each line followed by a line feed.
pub open spec fn terminated_lines(lines: Seq<Seq<char>>) -> Seq<char> {
    lines.map_values(|l: Seq<char>| l.push('\n')).flatten()
}

/// Lines in a fenced block: the fence, each line, the fence, each on its own line.
pub open spec fn fenced_lines(lines: Seq<Seq<char>>) -> Seq<char> {
    let fence = fence_of(joined_lines(lines));
    fence.push('\n') + terminated_lines(lines) + fence.push('\n')
}

/// Text in a fenced block: the fence, the text ended by a line feed, the fence.
pub open spec fn fenced_text(text: Seq<char>) -> Seq<char> {
    let fence = fence_of(text);
    let body = if text.len() > 0 && text.last() == '\n' {
        text
    } else {
        text.push('\n')
    };
    fence.push('\n') + body + fence.push('\n')
}

/// The characters of each string.
pub open spec fn string_views(v: Seq<String>) -> Seq<Seq<char>> {
    v.map_values(|s: String| s@)
}

/// The recorded session as a markdown e2e scenario: the initial canvas, the
/// cursor and the clipboard when known, the keys, and the final canvas. An empty
/// clipboard is left out.
pub open spec fn recording_text(
    keys: Seq<char>,
    given: Seq<Seq<char>>,
    cursor: Option<(u16, u16)>,
    clipboard: Option<Seq<char>>,
    expect: Seq<Seq<char>>,
) -> Seq<char> {
    let cursor_part = match cursor {
        Some((col, row)) => "\n**Cursor** "@ + decimal(col as nat) + " "@ + decimal(row as nat)
            + "\n"@,
        None => Seq::empty(),
    };
    let clipboard_part = match clipboard {
        Some(c) => if c.len() > 0 {
            "\n**Clipboard**\n"@ + fenced_text(c)
        } else {
            Seq::empty()
        },
        None => Seq::empty(),
    };
    "## Scenario: Recorded session\n\n**Given**\n"@ + fenced_lines(given) + cursor_part
        + clipboard_part + "\n**Keys**\n"@ + fenced_text(keys) + "\n**Expect**\n"@ + fenced_lines(
        expect,
    )
}

fn join_lines(lines: &Vec<String>) -> (r: String)
    ensures
        r@ == joined_lines(string_views(lines@)),
{
    let ghost v = string_views(lines@);
    let mut r = String::new();
    let mut k: usize = 0;
    while k < lines.len()
        invariant
            0 <= k <= lines.len(),
            v == string_views(lines@),
            r@ == joined_lines(v.take(k as int)),
        decreases lines.len() - k,
    {
        if k > 0 {
            string_push(&mut r, '\n');
        }
        string_push_str(&mut r, lines[k].as_str());
        assert(v.take(k + 1).drop_last() =~= v.take(k as int));
        k = k + 1;
    }
    assert(v.take(lines.len() as int) =~= v);
    r
}

fn append_fenced_lines(content: &mut String, lines: &Vec<String>)
    ensures
        final(content)@ == old(content)@ + fenced_lines(string_views(lines@)),
{
    let ghost v = string_views(lines@);
    let ghost terminated = v.map_values(|l: Seq<char>| l.push('\n'));
    let text = join_lines(lines);
    let fence = markdown_fence_for(text.as_str());
    string_push_str(content, fence.as_str());
    string_push(content, '\n');
    let ghost head = content@;
    let mut k: usize = 0;
    while k < lines.len()
        invariant
            0 <= k <= lines.len(),
            v == string_views(lines@),
            terminated == v.map_values(|l: Seq<char>| l.push('\n')),
            content@ == head + terminated.take(k as int).flatten(),
        decreases lines.len() - k,
    {
        string_push_str(content, lines[k].as_str());
        string_push(content, '\n');
        proof {
            assert(terminated.take(k + 1) =~= terminated.take(k as int).push(terminated[k as int]));
            terminated.take(k as int).lemma_flatten_push(terminated[k as int]);
        }
        k = k + 1;
    }
    assert(terminated.take(lines.len() as int) =~= terminated);
    string_push_str(content, fence.as_str());
    string_push(content, '\n');
}

fn append_fenced_text(content: &mut String, text: &str)
    ensures
        final(content)@ == old(content)@ + fenced_text(text@),
{
    let fence = markdown_fence_for(text);
    string_push_str(content, fence.as_str());
    string_push(content, '\n');
    string_push_str(content, text);
    let v = chars_of(text);
    if !(v.len() > 0 && v[v.len() - 1] == '\n') {
        string_push(content, '\n');
    }
    string_push_str(content, fence.as_str());
    string_push(content, '\n');
}

/// Formats a recorded session as a markdown e2e scenario.
pub fn format_e2e_recording(
    keys: &str,
    given: &Vec<String>,
    cursor: Option<(u16, u16)>,
    clipboard: Option<&str>,
    expect: &Vec<String>,
) -> (r: String)
    ensures
        r@ == recording_text(
            keys@,
            string_views(given@),
            cursor,
            match clipboard {
                Some(c) => Some(c@),
                None => None,
            },
            string_views(expect@),
        ),
{
    let mut content = String::new();
    string_push_str(&mut content, "## Scenario: Recorded session\n\n**Given**\n");
    append_fenced_lines(&mut content, given);
    if let Some((col, row)) = cursor {
        string_push_str(&mut content, "\n**Cursor** ");
        push_decimal(&mut content, col);
        string_push_str(&mut content, " ");
        push_decimal(&mut content, row);
        string_push_str(&mut content, "\n");
    }
    if let Some(c) = clipboard {
        if !c.is_empty() {
            string_push_str(&mut content, "\n**Clipboard**\n");
            append_fenced_text(&mut content, c);
        }
    }
    string_push_str(&mut content, "\n**Keys**\n");
    append_fenced_text(&mut content, keys);
    string_push_str(&mut content, "\n**Expect**\n");
    append_fenced_lines(&mut content, expect);
    content
}

/// A canvas snapshot: one string of glyphs per row.
#[derive(Debug, PartialEq, Eq)]
pub struct CanvasSnapshot {
    pub glyphs: Vec<String>,
    pub origin: (u16, u16),
    pub size: (u16, u16),
}

/// Where the occupied part of a snapshot lies, as the core's crop reports it.
#[derive(Debug, PartialEq, Eq)]
pub struct CropBounds {
    pub origin: (u16, u16),
    pub size: (u16, u16),
}

/// A cropped extent grown to reach the cursor cell, when the cursor is not
/// before the crop's origin; the cell count saturates at `u16::MAX`.
pub open spec fn extent_with_cursor(size: u16, origin: u16, cursor: u16) -> u16 {
    if cursor >= origin {
        let reach = cursor - origin + 1;
        let reach = if reach > u16::MAX {
            u16::MAX as int
        } else {
            reach
        };
        if size >= reach {
            size
        } else {
            reach as u16
        }
    } else {
        size
    }
}

/// The recorded extent covers the drawing and, when the cursor is not before the
/// crop's origin, the cursor's cell too (up to `u16::MAX` cells); and it is the
/// least extent that does: the drawing's own, or the reach of the cursor.
pub proof fn law_recorded_extent_covers_drawing_and_cursor(size: u16, origin: u16, cursor: u16)
    ensures
        extent_with_cursor(size, origin, cursor) >= size,
        cursor >= origin && cursor - origin + 1 <= u16::MAX ==> extent_with_cursor(
            size,
            origin,
            cursor,
        ) >= cursor - origin + 1,
        cursor >= origin && cursor - origin + 1 > u16::MAX ==> extent_with_cursor(
            size,
            origin,
            cursor,
        ) == u16::MAX,
        extent_with_cursor(size, origin, cursor) == size || (cursor >= origin && (
        extent_with_cursor(size, origin, cursor) == cursor - origin + 1 || extent_with_cursor(
            size,
            origin,
            cursor,
        ) == u16::MAX)),
{
}

/// Growing a recorded size never shrinks it, covers the new size, and takes each
/// dimension from one of the two.
pub proof fn law_growing_covers_both(a: (u16, u16), b: (u16, u16))
    ensures
        grown(a, b).0 >= a.0 && grown(a, b).0 >= b.0,
        grown(a, b).1 >= a.1 && grown(a, b).1 >= b.1,
        grown(a, b).0 == a.0 || grown(a, b).0 == b.0,
        grown(a, b).1 == a.1 || grown(a, b).1 == b.1,
{
}

/// The occupied size of a cropped snapshot.
pub fn occupied_recording_size(cropped: CropBounds) -> (r: (u16, u16))
    ensures
        r == cropped.size,
{
    cropped.size
}

/// The occupied size of a cropped snapshot, grown to include the cursor cell.
pub fn occupied_recording_size_including_cursor(cropped: CropBounds, cursor: (u16, u16)) -> (r: (
    u16,
    u16,
))
    ensures
        r == (
            extent_with_cursor(cropped.size.0, cropped.origin.0, cursor.0),
            extent_with_cursor(cropped.size.1, cropped.origin.1, cursor.1),
        ),
{
    let mut width = cropped.size.0;
    let mut height = cropped.size.1;
    if cursor.0 >= cropped.origin.0 {
        let reach = (cursor.0 - cropped.origin.0).saturating_add(1);
        if width < reach {
            width = reach;
        }
    }
    if cursor.1 >= cropped.origin.1 {
        let reach = (cursor.1 - cropped.origin.1).saturating_add(1);
        if height < reach {
            height = reach;
        }
    }
    (width, height)
}

/// The larger of each dimension.
pub open spec fn grown(a: (u16, u16), b: (u16, u16)) -> (u16, u16) {
    (
        if a.0 >= b.0 {
            a.0
        } else {
            b.0
        },
        if a.1 >= b.1 {
            a.1
        } else {
            b.1
        },
    )
}

/// Grows a recorded size to include an occupied size.
fn grow_to(recorded_size: &mut (u16, u16), size: (u16, u16))
    ensures
        *final(recorded_size) == grown(*old(recorded_size), size),
{
    if recorded_size.0 < size.0 {
        recorded_size.0 = size.0;
    }
    if recorded_size.1 < size.1 {
        recorded_size.1 = size.1;
    }
}

/// Grows a recorded size to include a cropped snapshot's occupied size.
pub fn grow_recording_size(recorded_size: &mut (u16, u16), cropped: CropBounds)
    ensures
        *final(recorded_size) == grown(*old(recorded_size), cropped.size),
{
    let size = occupied_recording_size(cropped);
    grow_to(recorded_size, size);
}

/// Grows a recorded size to include both a cropped snapshot and the cursor cell.
pub fn grow_recording_size_including_cursor(
    recorded_size: &mut (u16, u16),
    cropped: CropBounds,
    cursor: (u16, u16),
)
    ensures
        *final(recorded_size) == grown(
            *old(recorded_size),
            (
                extent_with_cursor(cropped.size.0, cropped.origin.0, cursor.0),
                extent_with_cursor(cropped.size.1, cropped.origin.1, cursor.1),
            ),
        ),
{
    let size = occupied_recording_size_including_cursor(cropped, cursor);
    grow_to(recorded_size, size);
}

/// The recorded cursor cell: the viewport's origin plus the cursor's position in
/// it, each coordinate saturating at `u16::MAX`.
pub fn recording_cursor(viewport_origin: (u16, u16), cursor_in_viewport: (u16, u16)) -> (r: (
    u16,
    u16,
))
    ensures
        r.0 == (if viewport_origin.0 + cursor_in_viewport.0 > u16::MAX {
            u16::MAX as int
        } else {
            viewport_origin.0 + cursor_in_viewport.0
        }),
        r.1 == (if viewport_origin.1 + cursor_in_viewport.1 > u16::MAX {
            u16::MAX as int
        } else {
            viewport_origin.1 + cursor_in_viewport.1
        }),
{
    (
        viewport_origin.0.saturating_add(cursor_in_viewport.0),
        viewport_origin.1.saturating_add(cursor_in_viewport.1),
    )
}

/// Row `r` of the glyphs; empty past the last row.
pub open spec fn glyph_row(glyphs: Seq<Seq<char>>, r: int) -> Seq<char> {
    if 0 <= r < glyphs.len() {
        glyphs[r]
    } else {
        Seq::empty()
    }
}

/// The recorded character of a cell: the glyph, with blanks and cells past the
/// row's end shown as dots.
pub open spec fn recorded_cell(row: Seq<char>, c: int) -> char {
    if 0 <= c < row.len() && row[c] != ' ' {
        row[c]
    } else {
        '.'
    }
}

fn recorded_row(row: &Vec<char>, width: u16) -> (line: String)
    ensures
        line@.len() == width,
        forall|c: int| 0 <= c < width ==> line@[c] == recorded_cell(row@, c),
{
    let mut line = String::new();
    let mut col: u16 = 0;
    while col < width
        invariant
            0 <= col <= width,
            line@.len() == col,
            forall|c: int| 0 <= c < col ==> line@[c] == recorded_cell(row@, c),
        decreases width - col,
    {
        let c = col as usize;
        let ch = if c < row.len() {
            row[c]
        } else {
            ' '
        };
        string_push(&mut line, if ch == ' ' {
            '.'
        } else {
            ch
        });
        col = col + 1;
    }
    line
}

/// Renders a snapshot into `size.1` rows of `size.0` cells, blanks shown as dots.
pub fn recording_lines_for_size(snapshot: &CanvasSnapshot, size: (u16, u16)) -> (lines: Vec<String>)
    ensures
        lines.len() == size.1,
        forall|r: int|
            0 <= r < size.1 ==> (#[trigger] lines@[r])@.len() == size.0 && forall|c: int|
                0 <= c < size.0 ==> lines@[r]@[c] == recorded_cell(
                    glyph_row(string_views(snapshot.glyphs@), r),
                    c,
                ),
{
    let ghost g = string_views(snapshot.glyphs@);
    let mut lines: Vec<String> = Vec::new();
    let mut row: u16 = 0;
    while row < size.1
        invariant
            0 <= row <= size.1,
            g == string_views(snapshot.glyphs@),
            lines.len() == row,
            forall|r: int|
                0 <= r < row ==> (#[trigger] lines@[r])@.len() == size.0 && forall|c: int|
                    0 <= c < size.0 ==> lines@[r]@[c] == recorded_cell(glyph_row(g, r), c),
        decreases size.1 - row,
    {
        let r = row as usize;
        let chars = if r < snapshot.glyphs.len() {
            chars_of(snapshot.glyphs[r].as_str())
        } else {
            Vec::new()
        };
        assert(chars@ == glyph_row(g, r as int));
        let line = recorded_row(&chars, size.0);
        lines.push(line);
        row = row + 1;
    }
    lines
}

} // verus!
