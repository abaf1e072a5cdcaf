//! File, save, and quit-prompt state of the terminal host.
//!
//! Writing the file is the host's work: the save methods take what the write of
//! `FileMode::save_payload` to `FileMode::path` gave (`Ok(())`, or the reason it
//! failed) and update the state from it.
use vstd::prelude::*;

use crate::file_mode::{mode_dirty, mode_path, mode_saved, FileMode, FileModeView};
use crate::text::{owned, string_push_str};

verus! {

/// The prompt shown while a dirty file-backed document waits for a quit answer.
pub const SAVE_PROMPT_TEXT: &'static str = "save changes? y/n/esc";

/// The message after a save request in scratch mode.
pub const NO_FILE_TO_SAVE_TEXT: &'static str = "no file to save";

/// The message after a failed save.
pub const SAVE_FAILED_TEXT: &'static str = "save failed";

/// Result of a plain `q` request in file-backed mode.
#[derive(Debug, Clone, Copy, PartialEq, Eq)]
pub enum QuitRequest {
    /// The document is dirty and the host should show the save prompt.
    PromptOpened,
    /// The host can exit immediately without prompting.
    ExitImmediately,
}

/// Result of an explicit save shortcut.
#[derive(Debug, Clone, Copy, PartialEq, Eq)]
pub enum SaveRequestOutcome {
    /// File contents were written successfully.
    Saved,
    /// Scratch mode has no backing file, so the save request was blocked.
    BlockedNoFile,
}

#[derive(Debug, Clone, Copy, PartialEq, Eq)]
enum QuitPromptState {
    Inactive,
    ConfirmSaveOnQuit,
}

/// What the host state holds: the document, whether the save-on-quit prompt is
/// up, and the transient message, if any.
pub struct EditorView {
    pub mode: FileModeView,
    pub prompt: bool,
    pub message: Option<Seq<char>>,
}

/// Host-owned file, save, and quit-prompt state for the terminal app.
#[derive(Debug, PartialEq, Eq)]
pub struct EditorState {
    file_mode: FileMode,
    quit_prompt: QuitPromptState,
    transient_message: Option<String>,
}

/// A failed file-backed save: the path and the reason the write gave.
#[derive(Debug, Clone, PartialEq, Eq)]
pub struct FileSaveError {
    path: String,
    reason: String,
}

/// The text of a save error: what `Display` prints for it.
pub open spec fn save_error_text(path: Seq<char>, reason: Seq<char>) -> Seq<char> {
    "failed to save "@ + path + ": "@ + reason
}

impl View for FileSaveError {
    type V = (Seq<char>, Seq<char>);

    closed spec fn view(&self) -> (Seq<char>, Seq<char>) {
        (self.path@, self.reason@)
    }
}

impl FileSaveError {
    /// The error's message.
    pub fn message(&self) -> (m: String)
        ensures
            m@ == save_error_text(self@.0, self@.1),
    {
        let mut m = String::new();
        string_push_str(&mut m, "failed to save ");
        string_push_str(&mut m, self.path.as_str());
        string_push_str(&mut m, ": ");
        string_push_str(&mut m, self.reason.as_str());
        m
    }
}

/// The text the host shows top-center: the save prompt while it is up, the
/// transient message otherwise.
pub open spec fn center_of(s: EditorView) -> Option<Seq<char>> {
    if s.prompt {
        Some(SAVE_PROMPT_TEXT@)
    } else {
        s.message
    }
}

/// A state that the host state's methods can reach: the prompt is only up for a
/// file-backed document, and the only transient messages are the blocked-save
/// and the failed-save messages.
pub open spec fn reachable_state(s: EditorView) -> bool {
    &&& s.prompt ==> mode_path(s.mode) is Some
    &&& match s.message {
        None => true,
        Some(m) => m == NO_FILE_TO_SAVE_TEXT@ || m == SAVE_FAILED_TEXT@,
    }
}

/// In every reachable host state the top-center text is the save prompt exactly
/// while the prompt is up; otherwise it is nothing, the blocked-save message or
/// the failed-save message.
pub proof fn law_center_text_is_prompt_or_host_message(s: EditorView)
    requires
        reachable_state(s),
    ensures
        s.prompt ==> center_of(s) == Some(SAVE_PROMPT_TEXT@),
        !s.prompt ==> center_of(s) is None || center_of(s) == Some(NO_FILE_TO_SAVE_TEXT@)
            || center_of(s) == Some(SAVE_FAILED_TEXT@),
{
}

impl View for EditorState {
    type V = EditorView;

    closed spec fn view(&self) -> EditorView {
        EditorView {
            mode: self.file_mode@,
            prompt: self.quit_prompt == QuitPromptState::ConfirmSaveOnQuit,
            message: match self.transient_message {
                Some(m) => Some(m@),
                None => None,
            },
        }
    }
}

impl EditorState {
    /// Every host state is reachable (see `reachable_state`).
    #[verifier::type_invariant]
    spec fn reachable(self) -> bool {
        reachable_state(self@)
    }

    /// Host state for a scratch, plain-file, or markdown-backed document, with no
    /// prompt and no message.
    pub fn new(file_mode: FileMode) -> (s: Self)
        ensures
            s@ == (EditorView { mode: file_mode@, prompt: false, message: None }),
            reachable_state(s@),
    {
        Self { file_mode, quit_prompt: QuitPromptState::Inactive, transient_message: None }
    }

    /// The current backing document model.
    pub fn file_mode(&self) -> (m: &FileMode)
        ensures
            m@ == self@.mode,
            reachable_state(self@),
    {
        proof {
            use_type_invariant(&*self);
        }
        &self.file_mode
    }

    /// The top-center text owned by the host, such as the save prompt.
    pub fn center_text(&self) -> (t: Option<&str>)
        ensures
            match t {
                Some(s) => center_of(self@) == Some(s@),
                None => center_of(self@) is None,
            },
            reachable_state(self@),
            self@.prompt ==> (t matches Some(p) && p@ == SAVE_PROMPT_TEXT@),
            !self@.prompt ==> match t {
                None => true,
                Some(m) => m@ == NO_FILE_TO_SAVE_TEXT@ || m@ == SAVE_FAILED_TEXT@,
            },
    {
        proof {
            use_type_invariant(&*self);
        }
        match self.quit_prompt {
            QuitPromptState::ConfirmSaveOnQuit => Some(SAVE_PROMPT_TEXT),
            QuitPromptState::Inactive => match &self.transient_message {
                Some(m) => Some(m.as_str()),
                None => None,
            },
        }
    }

    /// Whether the save-on-quit prompt is intercepting input.
    pub fn prompt_active(&self) -> (b: bool)
        ensures
            b == self@.prompt,
            reachable_state(self@),
    {
        proof {
            use_type_invariant(&*self);
        }
        match self.quit_prompt {
            QuitPromptState::ConfirmSaveOnQuit => true,
            QuitPromptState::Inactive => false,
        }
    }

    /// Clears the transient message after an accepted key, unless the prompt is up.
    pub fn clear_transient_message(&mut self)
        ensures
            final(self)@ == (EditorView {
                message: if old(self)@.prompt { old(self)@.message } else { None },
                ..old(self)@
            }),
            reachable_state(final(self)@),
    {
        proof {
            use_type_invariant(&*self);
        }
        if !self.prompt_active() {
            self.transient_message = None;
        }
    }

    /// Starts quit handling: a dirty file-backed document opens the save prompt,
    /// anything else may exit at once. The transient message is cleared.
    pub fn begin_quit(&mut self, current_editable_text: &str) -> (r: QuitRequest)
        ensures
            ({
                let opens = mode_path(old(self)@.mode) is Some && mode_dirty(
                    old(self)@.mode,
                    current_editable_text@,
                );
                &&& final(self)@ == (EditorView { mode: old(self)@.mode, prompt: opens, message: None })
                &&& r == (if opens {
                    QuitRequest::PromptOpened
                } else {
                    QuitRequest::ExitImmediately
                })
            }),
            reachable_state(final(self)@),
    {
        proof {
            use_type_invariant(&*self);
        }
        self.transient_message = None;
        if self.file_mode.path().is_some() && self.file_mode.is_dirty(current_editable_text) {
            self.quit_prompt = QuitPromptState::ConfirmSaveOnQuit;
            QuitRequest::PromptOpened
        } else {
            self.quit_prompt = QuitPromptState::Inactive;
            QuitRequest::ExitImmediately
        }
    }

    /// Dismisses the save prompt without saving or exiting.
    pub fn cancel_quit_prompt(&mut self)
        ensures
            final(self)@ == (EditorView { prompt: false, ..old(self)@ }),
            reachable_state(final(self)@),
    {
        proof {
            use_type_invariant(&*self);
        }
        self.quit_prompt = QuitPromptState::Inactive;
    }

    /// Takes the discard branch of the save prompt: no prompt, no message.
    pub fn discard_quit_prompt(&mut self)
        ensures
            final(self)@ == (EditorView { prompt: false, message: None, ..old(self)@ }),
            reachable_state(final(self)@),
    {
        proof {
            use_type_invariant(&*self);
        }
        self.quit_prompt = QuitPromptState::Inactive;
        self.transient_message = None;
    }

    /// Handles `Ctrl+S` and keeps editing. In scratch mode the request is blocked
    /// with a message. Otherwise `written` is what writing the save payload gave: on
    /// success the diagram becomes the clean baseline, on failure the document stays
    /// as it was and the message says the save failed.
    pub fn save_from_shortcut(
        &mut self,
        current_editable_text: &str,
        written: Result<(), String>,
    ) -> (r: Result<SaveRequestOutcome, FileSaveError>)
        ensures
            match mode_path(old(self)@.mode) {
                None => {
                    &&& r == Ok::<SaveRequestOutcome, FileSaveError>(
                        SaveRequestOutcome::BlockedNoFile,
                    )
                    &&& final(self)@ == (EditorView {
                        message: Some(NO_FILE_TO_SAVE_TEXT@),
                        ..old(self)@
                    })
                },
                Some(path) => match written {
                    Ok(()) => {
                        &&& r == Ok::<SaveRequestOutcome, FileSaveError>(
                            SaveRequestOutcome::Saved,
                        )
                        &&& final(self)@ == (EditorView {
                            mode: mode_saved(old(self)@.mode, current_editable_text@),
                            message: None,
                            ..old(self)@
                        })
                    },
                    Err(reason) => {
                        &&& r matches Err(e) && e@ == (path, reason@)
                        &&& final(self)@ == (EditorView {
                            message: Some(SAVE_FAILED_TEXT@),
                            ..old(self)@
                        })
                    },
                },
            },
            reachable_state(final(self)@),
    {
        proof {
            use_type_invariant(&*self);
        }
        self.transient_message = None;
        if self.file_mode.path().is_none() {
            self.transient_message = Some(owned(NO_FILE_TO_SAVE_TEXT));
            return Ok(SaveRequestOutcome::BlockedNoFile);
        }
        match self.persist_current_text(current_editable_text, written) {
            Ok(()) => Ok(SaveRequestOutcome::Saved),
            Err(e) => Err(e),
        }
    }

    /// Saves from the quit prompt before the host exits. The prompt closes either
    /// way; `written` is what writing the save payload gave, as for
    /// `save_from_shortcut`.
    pub fn save_from_quit_prompt(
        &mut self,
        current_editable_text: &str,
        written: Result<(), String>,
    ) -> (r: Result<(), FileSaveError>)
        requires
            mode_path(old(self)@.mode) is Some,
        ensures
            match written {
                Ok(()) => {
                    &&& r is Ok
                    &&& final(self)@ == (EditorView {
                        mode: mode_saved(old(self)@.mode, current_editable_text@),
                        prompt: false,
                        message: None,
                    })
                },
                Err(reason) => {
                    &&& r matches Err(e) && e@ == (mode_path(old(self)@.mode)->0, reason@)
                    &&& final(self)@ == (EditorView {
                        mode: old(self)@.mode,
                        prompt: false,
                        message: Some(SAVE_FAILED_TEXT@),
                    })
                },
            },
            reachable_state(final(self)@),
    {
        proof {
            use_type_invariant(&*self);
        }
        self.quit_prompt = QuitPromptState::Inactive;
        self.transient_message = None;
        self.persist_current_text(current_editable_text, written)
    }

    fn persist_current_text(&mut self, current_editable_text: &str, written: Result<(), String>) -> (r: Result<
        (),
        FileSaveError,
    >)
        requires
            mode_path(old(self)@.mode) is Some,
            old(self)@.message is None,
        ensures
            match written {
                Ok(()) => {
                    &&& r is Ok
                    &&& final(self)@ == (EditorView {
                        mode: mode_saved(old(self)@.mode, current_editable_text@),
                        ..old(self)@
                    })
                },
                Err(reason) => {
                    &&& r matches Err(e) && e@ == (mode_path(old(self)@.mode)->0, reason@)
                    &&& final(self)@ == (EditorView {
                        message: Some(SAVE_FAILED_TEXT@),
                        ..old(self)@
                    })
                },
            },
            reachable_state(final(self)@),
    {
        proof {
            use_type_invariant(&*self);
        }
        let path = match self.file_mode.path() {
            Some(p) => owned(p),
            None => {
                return Ok(());
            },
        };
        match written {
            Ok(()) => {
                self.file_mode.mark_saved(owned(current_editable_text));
                Ok(())
            },
            Err(reason) => {
                self.transient_message = Some(owned(SAVE_FAILED_TEXT));
                Err(FileSaveError { path, reason })
            },
        }
    }
}

} // verus!
