//! The host's decisions around the editing core: which keys the host keeps for
//! itself, which key of a burst it processes, timers, clipboard syncing, and
//! where recordings and traces go.
use vstd::prelude::*;

use crate::editor_state::{EditorState, EditorView};
use crate::file_mode::{mode_path, FileMode};
use crate::keys::{AppKeyCode, AppKeyEvent, AppKeyModifiers, Mode, TerminalKey, TerminalKeyCode};
use crate::text::{owned, same_text};

verus! {

/// An answer to the save-on-quit prompt.
#[derive(Debug, Clone, Copy, PartialEq, Eq)]
pub enum PromptKeyIntent {
    SaveAndExit,
    DiscardAndExit,
    Cancel,
}

/// No modifier, or shift alone.
pub open spec fn plain_or_shift_only(m: AppKeyModifiers) -> bool {
    !m.control && !m.alt
}

/// What a key means at the save prompt: `Esc` cancels; with no modifier but
/// shift, `y` saves and `n` discards, either case.
pub open spec fn prompt_intent_of(event: AppKeyEvent) -> Option<PromptKeyIntent> {
    if event.code == AppKeyCode::Esc {
        Some(PromptKeyIntent::Cancel)
    } else if !plain_or_shift_only(event.modifiers) {
        None
    } else if event.code == AppKeyCode::Char('y') || event.code == AppKeyCode::Char('Y') {
        Some(PromptKeyIntent::SaveAndExit)
    } else if event.code == AppKeyCode::Char('n') || event.code == AppKeyCode::Char('N') {
        Some(PromptKeyIntent::DiscardAndExit)
    } else {
        None
    }
}

/// `Ctrl+S`, either case.
pub open spec fn save_shortcut(event: AppKeyEvent) -> bool {
    event.modifiers.control && (event.code == AppKeyCode::Char('s') || event.code
        == AppKeyCode::Char('S'))
}

/// An unmodified `q` outside text mode in a file-backed session.
pub open spec fn intercepts_quit(mode: Mode, event: AppKeyEvent, has_path: bool) -> bool {
    &&& has_path
    &&& mode != Mode::Text
    &&& !event.modifiers.shift && !event.modifiers.control && !event.modifiers.alt
    &&& event.code == AppKeyCode::Char('q')
}

/// Keys the core handles even while the prompt is up: `Ctrl+C` and `Ctrl+Q`
/// (either case), and, outside text mode, `Q` with no modifier but shift.
pub open spec fn bypasses_prompt(mode: Mode, event: AppKeyEvent) -> bool {
    if event.modifiers.control {
        event.code == AppKeyCode::Char('c') || event.code == AppKeyCode::Char('C') || event.code
            == AppKeyCode::Char('q') || event.code == AppKeyCode::Char('Q')
    } else {
        mode != Mode::Text && plain_or_shift_only(event.modifiers) && event.code
            == AppKeyCode::Char('Q')
    }
}

/// The keys the host keeps: `Ctrl+S` (either case) saves; an unmodified `q`
/// outside text mode in a file-backed session quits; at the prompt `Esc` cancels,
/// and with no modifier but shift `y`/`Y` saves and `n`/`N` discards; `Ctrl+C` and
/// `Ctrl+Q` (either case), and outside text mode a `Q` with no modifier but shift,
/// go past the prompt to the core.
pub proof fn law_host_keys(mode: Mode, event: AppKeyEvent, has_path: bool)
    ensures
        save_shortcut(event) <==> event.modifiers.control && (event.code == AppKeyCode::Char('s')
            || event.code == AppKeyCode::Char('S')),
        intercepts_quit(mode, event, has_path) <==> has_path && mode != Mode::Text
            && !event.modifiers.shift && !event.modifiers.control && !event.modifiers.alt
            && event.code == AppKeyCode::Char('q'),
        event.code == AppKeyCode::Esc ==> prompt_intent_of(event) == Some(PromptKeyIntent::Cancel),
        !event.modifiers.control && !event.modifiers.alt && (event.code == AppKeyCode::Char('y')
            || event.code == AppKeyCode::Char('Y')) ==> prompt_intent_of(event) == Some(
            PromptKeyIntent::SaveAndExit,
        ),
        !event.modifiers.control && !event.modifiers.alt && (event.code == AppKeyCode::Char('n')
            || event.code == AppKeyCode::Char('N')) ==> prompt_intent_of(event) == Some(
            PromptKeyIntent::DiscardAndExit,
        ),
        prompt_intent_of(event) is Some ==> event.code == AppKeyCode::Esc || (!event.modifiers.control
            && !event.modifiers.alt && (event.code == AppKeyCode::Char('y') || event.code
            == AppKeyCode::Char('Y') || event.code == AppKeyCode::Char('n') || event.code
            == AppKeyCode::Char('N'))),
        bypasses_prompt(mode, event) <==> (event.modifiers.control && (event.code
            == AppKeyCode::Char('c') || event.code == AppKeyCode::Char('C') || event.code
            == AppKeyCode::Char('q') || event.code == AppKeyCode::Char('Q'))) || (
        !event.modifiers.control && !event.modifiers.alt && mode != Mode::Text && event.code
            == AppKeyCode::Char('Q')),
{
}

/// Whether the modifiers are none or shift alone.
pub fn is_plain_or_shift_only(modifiers: AppKeyModifiers) -> (b: bool)
    ensures
        b == plain_or_shift_only(modifiers),
{
    !modifiers.control && !modifiers.alt
}

/// What a key means at the save prompt.
pub fn prompt_key_intent(event: AppKeyEvent) -> (r: Option<PromptKeyIntent>)
    ensures
        r == prompt_intent_of(event),
{
    if let AppKeyCode::Esc = event.code {
        return Some(PromptKeyIntent::Cancel);
    }
    if !is_plain_or_shift_only(event.modifiers) {
        return None;
    }
    match event.code {
        AppKeyCode::Char(ch) => {
            if ch == 'y' || ch == 'Y' {
                Some(PromptKeyIntent::SaveAndExit)
            } else if ch == 'n' || ch == 'N' {
                Some(PromptKeyIntent::DiscardAndExit)
            } else {
                None
            }
        },
        _ => None,
    }
}

/// Whether the key is `Ctrl+S`.
pub fn is_save_shortcut(event: AppKeyEvent) -> (b: bool)
    ensures
        b == save_shortcut(event),
{
    event.modifiers.control && match event.code {
        AppKeyCode::Char(c) => c == 's' || c == 'S',
        _ => false,
    }
}

/// Whether a plain `q` should go to the host's quit handling.
pub fn should_intercept_plain_file_quit(mode: Mode, event: AppKeyEvent, file_mode: &FileMode) -> (b: bool)
    ensures
        b == intercepts_quit(mode, event, mode_path(file_mode@) is Some),
{
    file_mode.path().is_some() && !matches!(mode, Mode::Text) && !event.modifiers.shift
        && !event.modifiers.control && !event.modifiers.alt && match event.code {
        AppKeyCode::Char(c) => c == 'q',
        _ => false,
    }
}

/// Whether the key goes to the core even while the prompt is up.
pub fn prompt_should_bypass_to_core(mode: Mode, event: AppKeyEvent) -> (b: bool)
    ensures
        b == bypasses_prompt(mode, event),
{
    if event.modifiers.control {
        return match event.code {
            AppKeyCode::Char(c) => c == 'c' || c == 'C' || c == 'q' || c == 'Q',
            _ => false,
        };
    }
    !matches!(mode, Mode::Text) && is_plain_or_shift_only(event.modifiers) && match event.code {
        AppKeyCode::Char(c) => c == 'Q',
        _ => false,
    }
}

/// What the host does with a key before the core sees it.
#[derive(Debug, Clone, Copy, PartialEq, Eq)]
pub enum HostKeyStep {
    /// The core handles the key.
    ForwardToCore,
    /// Prompt answered yes: write the file, then `save_from_quit_prompt`; exit when it succeeds.
    SaveAndExit,
    /// Prompt answered no: the prompt is closed; exit without saving.
    DiscardAndExit,
    /// Prompt cancelled: the prompt is closed; keep editing.
    PromptCancelled,
    /// Any other key at the prompt: ring the bell and keep the prompt.
    RingBell,
    /// `Ctrl+S`: write the file, then `save_from_shortcut`; ring the bell when blocked.
    SaveShortcut,
    /// A plain `q` in a file-backed session: `begin_quit`, exiting unless the prompt opens.
    BeginQuit,
}

/// Decides what the host does with a key, updating the prompt and message state
/// where that needs no outside work. While the prompt is up, keys that bypass it
/// go to the core and the others answer it; otherwise the transient message is
/// cleared, and `Ctrl+S` and a plain `q` in a file-backed session are the
/// host's.
pub fn handle_host_key(state: &mut EditorState, mode: Mode, event: AppKeyEvent) -> (step: HostKeyStep)
    ensures
        ({
            let s = old(state)@;
            if s.prompt {
                if bypasses_prompt(mode, event) {
                    step == HostKeyStep::ForwardToCore && final(state)@ == s
                } else {
                    match prompt_intent_of(event) {
                        Some(PromptKeyIntent::SaveAndExit) => step == HostKeyStep::SaveAndExit
                            && final(state)@ == s,
                        Some(PromptKeyIntent::DiscardAndExit) => step
                            == HostKeyStep::DiscardAndExit && final(state)@ == (EditorView {
                            prompt: false,
                            message: None,
                            ..s
                        }),
                        Some(PromptKeyIntent::Cancel) => step == HostKeyStep::PromptCancelled
                            && final(state)@ == (EditorView { prompt: false, ..s }),
                        None => step == HostKeyStep::RingBell && final(state)@ == s,
                    }
                }
            } else {
                &&& final(state)@ == (EditorView { message: None, ..s })
                &&& event.modifiers.control && (event.code == AppKeyCode::Char('s') || event.code
                    == AppKeyCode::Char('S')) ==> step == HostKeyStep::SaveShortcut
                &&& step == if save_shortcut(event) {
                    HostKeyStep::SaveShortcut
                } else if intercepts_quit(mode, event, mode_path(s.mode) is Some) {
                    HostKeyStep::BeginQuit
                } else {
                    HostKeyStep::ForwardToCore
                }
            }
        }),
{
    if state.prompt_active() {
        if prompt_should_bypass_to_core(mode, event) {
            return HostKeyStep::ForwardToCore;
        }
        return match prompt_key_intent(event) {
            Some(PromptKeyIntent::SaveAndExit) => HostKeyStep::SaveAndExit,
            Some(PromptKeyIntent::DiscardAndExit) => {
                state.discard_quit_prompt();
                HostKeyStep::DiscardAndExit
            },
            Some(PromptKeyIntent::Cancel) => {
                state.cancel_quit_prompt();
                HostKeyStep::PromptCancelled
            },
            None => HostKeyStep::RingBell,
        };
    }
    state.clear_transient_message();
    if is_save_shortcut(event) {
        return HostKeyStep::SaveShortcut;
    }
    if should_intercept_plain_file_quit(mode, event, state.file_mode()) {
        return HostKeyStep::BeginQuit;
    }
    HostKeyStep::ForwardToCore
}

/// Modes in which a burst of movement keys collapses to its last key.
pub fn movement_coalescing_mode(mode: Mode) -> (b: bool)
    ensures
        b == (mode == Mode::Nav || mode == Mode::Shape || mode == Mode::Connector),
{
    matches!(mode, Mode::Nav | Mode::Shape | Mode::Connector)
}

/// Arrow keys and `hjkl` / `wasd`.
pub open spec fn movement_key(code: TerminalKeyCode) -> bool {
    match code {
        TerminalKeyCode::Left | TerminalKeyCode::Right | TerminalKeyCode::Up
        | TerminalKeyCode::Down => true,
        TerminalKeyCode::Char(c) => c == 'h' || c == 'j' || c == 'k' || c == 'l' || c == 'a' || c
            == 's' || c == 'd' || c == 'w',
        _ => false,
    }
}

/// Whether the key moves the cursor.
pub fn is_movement_key(code: TerminalKeyCode) -> (b: bool)
    ensures
        b == movement_key(code),
{
    match code {
        TerminalKeyCode::Left | TerminalKeyCode::Right | TerminalKeyCode::Up
        | TerminalKeyCode::Down => true,
        TerminalKeyCode::Char(c) => c == 'h' || c == 'j' || c == 'k' || c == 'l' || c == 'a' || c
            == 's' || c == 'd' || c == 'w',
        _ => false,
    }
}

/// A terminal event as the host loop reads it.
#[derive(Debug, Clone, Copy, PartialEq, Eq)]
pub enum TerminalEvent {
    Key(TerminalKey),
    Resize(u16, u16),
    Other,
}

/// A pressed movement key.
pub open spec fn pressed_movement(e: TerminalEvent) -> bool {
    match e {
        TerminalEvent::Key(k) => k.pressed && movement_key(k.code),
        _ => false,
    }
}

/// Whether the event is a pressed movement key.
pub fn is_pressed_movement(e: &TerminalEvent) -> (b: bool)
    ensures
        b == pressed_movement(*e),
{
    match e {
        TerminalEvent::Key(k) => k.pressed && is_movement_key(k.code),
        _ => false,
    }
}

/// Which key of a burst the host processes, given a key press at `i`: in a
/// coalescing mode a pressed movement key stands for the whole run of pressed
/// movement keys that follows it, and the last of them is processed. Returns the
/// index of the key to process and the index where reading goes on.
pub fn coalesced_key(events: &Vec<TerminalEvent>, i: usize, mode: Mode) -> (r: (usize, usize))
    requires
        i < events.len(),
    ensures
        i <= r.0 < r.1 <= events.len(),
        r.1 == r.0 + 1,
        r.0 > i ==> (mode == Mode::Nav || mode == Mode::Shape || mode == Mode::Connector)
            && pressed_movement(events@[i as int]),
        forall|k: int| i < k <= r.0 ==> pressed_movement(#[trigger] events@[k]),
        (mode == Mode::Nav || mode == Mode::Shape || mode == Mode::Connector) && pressed_movement(
            events@[i as int],
        ) ==> r.1 == events.len() || !pressed_movement(events@[r.1 as int]),
{
    if !(movement_coalescing_mode(mode) && is_pressed_movement(&events[i])) {
        return (i, i + 1);
    }
    let mut j = i + 1;
    while j < events.len() && is_pressed_movement(&events[j])
        invariant
            i < j <= events.len(),
            forall|k: int| i < k < j ==> pressed_movement(#[trigger] events@[k]),
        decreases events.len() - j,
    {
        j = j + 1;
    }
    (j - 1, j)
}

/// When the next UI tick is due, in milliseconds; none when no tick is scheduled.
#[derive(Debug, Clone, Copy, PartialEq, Eq)]
pub enum TimerDirective {
    Unchanged,
    Schedule(u64),
    Clear,
}

/// The tick delay after the core's timer directive.
pub fn apply_timer_directive(current: Option<u64>, directive: TimerDirective) -> (r: Option<u64>)
    ensures
        r == match directive {
            TimerDirective::Unchanged => current,
            TimerDirective::Schedule(d) => Some(d),
            TimerDirective::Clear => None,
        },
{
    match directive {
        TimerDirective::Unchanged => current,
        TimerDirective::Schedule(delay_ms) => Some(delay_ms),
        TimerDirective::Clear => None,
    }
}

/// A plain `p` in navigation mode pastes the selection clipboard, which is first
/// refreshed from the system clipboard.
pub fn should_refresh_terminal_selection_clipboard_from_os(mode: Mode, event: AppKeyEvent) -> (b:
    bool)
    ensures
        b == (mode == Mode::Nav && !event.modifiers.shift && !event.modifiers.control
            && !event.modifiers.alt && event.code == AppKeyCode::Char('p')),
{
    matches!(mode, Mode::Nav) && !event.modifiers.shift && !event.modifiers.control
        && !event.modifiers.alt && match event.code {
        AppKeyCode::Char(c) => c == 'p',
        _ => false,
    }
}

/// A plain `x`, `y` or `c` may change the selection clipboard, which is then
/// copied to the system clipboard.
pub open spec fn syncs_selection_clipboard(event: AppKeyEvent) -> bool {
    &&& !event.modifiers.shift && !event.modifiers.control && !event.modifiers.alt
    &&& (event.code == AppKeyCode::Char('x') || event.code == AppKeyCode::Char('y') || event.code
        == AppKeyCode::Char('c'))
}

/// Whether the key may have changed the selection clipboard.
pub fn should_sync_terminal_selection_clipboard_to_os(event: AppKeyEvent) -> (b: bool)
    ensures
        b == syncs_selection_clipboard(event),
{
    !event.modifiers.shift && !event.modifiers.control && !event.modifiers.alt
        && match event.code {
        AppKeyCode::Char(c) => c == 'x' || c == 'y' || c == 'c',
        _ => false,
    }
}

/// The characters of an optional string.
pub open spec fn str_view(s: Option<&str>) -> Option<Seq<char>> {
    match s {
        Some(t) => Some(t@),
        None => None,
    }
}

/// The clipboard text to copy to the system clipboard after `event`, given the
/// core's clipboard before and after it.
pub open spec fn text_to_sync(
    event: AppKeyEvent,
    before: Option<Seq<char>>,
    after: Option<Seq<char>>,
) -> Option<Seq<char>> {
    if syncs_selection_clipboard(event) && after is Some && before != after {
        after
    } else {
        None
    }
}

/// The text to copy to the system clipboard after a key: the core's clipboard
/// text, when the key may change it, it did change, and there is some.
pub fn clipboard_text_to_sync(event: AppKeyEvent, before: Option<&str>, after: Option<&str>) -> (r:
    Option<String>)
    ensures
        match r {
            Some(t) => text_to_sync(event, str_view(before), str_view(after)) == Some(t@),
            None => text_to_sync(event, str_view(before), str_view(after)) is None,
        },
{
    if !should_sync_terminal_selection_clipboard_to_os(event) {
        return None;
    }
    match after {
        None => None,
        Some(a) => {
            let unchanged = match before {
                Some(b) => same_text(b, a),
                None => false,
            };
            if unchanged {
                None
            } else {
                Some(owned(a))
            }
        },
    }
}

/// The text a whole-document paste uses: the system clipboard, else the core's
/// own clipboard, else nothing.
pub fn document_paste_text(os_text: Option<String>, internal_text: Option<String>) -> (r: String)
    ensures
        r@ == match os_text {
            Some(t) => t@,
            None => match internal_text {
                Some(t) => t@,
                None => Seq::<char>::empty(),
            },
        },
{
    match os_text {
        Some(t) => t,
        None => match internal_text {
            Some(t) => t,
            None => String::new(),
        },
    }
}

/// The developer-environment switch is on when its variable is set and not empty.
pub fn textagram_dev_env_enabled_from(value: Option<String>) -> (b: bool)
    ensures
        b == (value matches Some(v) && v@.len() > 0),
{
    match value {
        Some(v) => !v.as_str().is_empty(),
        None => false,
    }
}

/// `base` joined with `rel` as `Path::join` joins them, as text. It is named
/// rather than stated because the separator it puts between them, and the
/// prefixes it honours, are those of the target platform.
pub uninterp spec fn joined(base: Seq<char>, rel: Seq<char>) -> Seq<char>;

/// `Path::join` of `base` and `rel`, converted back to text with
/// `to_string_lossy`, which loses nothing since both parts are text already.
#[verifier::external_body]
fn join_relative(base: &str, rel: &str) -> (r: String)
    ensures
        r@ == joined(base@, rel@),
{
    std::path::Path::new(base).join(rel).to_string_lossy().into_owned()
}

/// Where recordings and traces go: the working directory, or `.` when it is unknown.
pub fn base_output_dir(cwd: Option<&str>) -> (r: String)
    ensures
        r@ == match cwd {
            Some(c) => c@,
            None => "."@,
        },
{
    match cwd {
        Some(c) => owned(c),
        None => owned("."),
    }
}

/// The trace file: `spec/e2e/recording.trace` under the output directory, in the
/// developer environment only.
pub fn default_trace_path_for(dev_env: bool, cwd: Option<&str>) -> (r: Option<String>)
    ensures
        match r {
            Some(p) => dev_env && p@ == joined(
                match cwd {
                    Some(c) => c@,
                    None => "."@,
                },
                "spec/e2e/recording.trace"@,
            ),
            None => !dev_env,
        },
{
    if dev_env {
        let base = base_output_dir(cwd);
        Some(join_relative(base.as_str(), "spec/e2e/recording.trace"))
    } else {
        None
    }
}

/// The recording file: `spec/e2e/recording.md` under the output directory in the
/// developer environment, `tg-recording.md` under it otherwise.
pub fn default_recording_path_for(dev_env: bool, cwd: Option<&str>) -> (r: String)
    ensures
        r@ == joined(
            match cwd {
                Some(c) => c@,
                None => "."@,
            },
            if dev_env {
                "spec/e2e/recording.md"@
            } else {
                "tg-recording.md"@
            },
        ),
{
    let base = base_output_dir(cwd);
    if dev_env {
        join_relative(base.as_str(), "spec/e2e/recording.md")
    } else {
        join_relative(base.as_str(), "tg-recording.md")
    }
}

} // verus!
