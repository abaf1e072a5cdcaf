//! File-backed document models: scratch, whole plain files, and markdown files
//! whose first `textagram` fence body is the edited diagram.
use vstd::prelude::*;

use crate::fence::{
    concat_segments, fence_lines, fence_parts, find_first_recognized_fence, seg_views,
    split_segments, FenceParts,
};
use crate::lines::segments;
use crate::text::{chars_of, ends_with_newline, owned, same_text, string_of, string_push, string_push_str};

verus! {

/// `text` with every `\r\n` and then every remaining `\r` turned into `\n`.
pub open spec fn normalized(s: Seq<char>) -> Seq<char>
    decreases s.len(),
{
    if s.len() == 0 {
        Seq::empty()
    } else if s[0] == '\r' && s.len() > 1 && s[1] == '\n' {
        seq!['\n'] + normalized(s.skip(2))
    } else if s[0] == '\r' {
        seq!['\n'] + normalized(s.skip(1))
    } else {
        seq![s[0]] + normalized(s.skip(1))
    }
}

/// What a plain file document holds.
pub struct PlainFileView {
    pub path: Seq<char>,
    pub original: Seq<char>,
}

/// What a markdown-backed document holds: its path and the parts of the file
/// around its first diagram fence, the body being the diagram as loaded.
pub struct MarkdownView {
    pub path: Seq<char>,
    pub parts: FenceParts,
}

/// What a file mode holds.
pub enum FileModeView {
    Scratch,
    PlainFile(PlainFileView),
    MarkdownBacked(MarkdownView),
}

/// The fence body as it is written back: empty when the diagram is empty, else the
/// diagram followed by a line feed unless it already ends with one.
pub open spec fn body_block(current: Seq<char>) -> Seq<char> {
    if current.len() == 0 {
        current
    } else if current.last() == '\n' {
        current
    } else {
        current.push('\n')
    }
}

/// The markdown file rebuilt around an edited diagram: every part but the body is
/// kept as it was loaded.
pub open spec fn rebuilt(parts: FenceParts, current: Seq<char>) -> Seq<char> {
    parts.before + parts.opening + body_block(current) + parts.closing + parts.after
}

/// The document a file holding `text` loads as: the first diagram fence of the
/// newline-normalized text when there is one, the whole normalized text otherwise.
pub open spec fn loaded_mode(path: Seq<char>, text: Seq<char>) -> FileModeView {
    let n = normalized(text);
    match fence_parts(n) {
        Some(parts) => FileModeView::MarkdownBacked(MarkdownView { path, parts }),
        None => FileModeView::PlainFile(PlainFileView { path, original: n }),
    }
}

/// The path of the backing file, none in scratch mode.
pub open spec fn mode_path(m: FileModeView) -> Option<Seq<char>> {
    match m {
        FileModeView::Scratch => None,
        FileModeView::PlainFile(d) => Some(d.path),
        FileModeView::MarkdownBacked(d) => Some(d.path),
    }
}

/// The diagram text as last loaded or saved; empty in scratch mode.
pub open spec fn mode_original(m: FileModeView) -> Seq<char> {
    match m {
        FileModeView::Scratch => Seq::empty(),
        FileModeView::PlainFile(d) => d.original,
        FileModeView::MarkdownBacked(d) => d.parts.body,
    }
}

/// A file-backed document is dirty when the diagram differs from its baseline;
/// scratch is never dirty.
pub open spec fn mode_dirty(m: FileModeView, current: Seq<char>) -> bool {
    match m {
        FileModeView::Scratch => false,
        _ => mode_original(m) != current,
    }
}

/// What saving writes to the backing file: the diagram itself for a plain file,
/// the rebuilt markdown for a markdown file, nothing in scratch mode.
pub open spec fn mode_payload(m: FileModeView, current: Seq<char>) -> Option<Seq<char>> {
    match m {
        FileModeView::Scratch => None,
        FileModeView::PlainFile(_) => Some(current),
        FileModeView::MarkdownBacked(d) => Some(rebuilt(d.parts, current)),
    }
}

/// The mode after `current` was saved: the diagram becomes the dirty baseline.
pub open spec fn mode_saved(m: FileModeView, current: Seq<char>) -> FileModeView {
    match m {
        FileModeView::Scratch => FileModeView::Scratch,
        FileModeView::PlainFile(d) => FileModeView::PlainFile(
            PlainFileView { path: d.path, original: current },
        ),
        FileModeView::MarkdownBacked(d) => FileModeView::MarkdownBacked(
            MarkdownView { path: d.path, parts: FenceParts { body: current, ..d.parts } },
        ),
    }
}

/// Scratch mode: no backing file.
#[derive(Debug, Clone, PartialEq, Eq)]
pub struct ScratchDocument;

/// A whole file edited as one diagram.
#[derive(Debug, Clone, PartialEq, Eq)]
pub struct PlainFileDocument {
    path: String,
    original_editable_text: String,
}

impl View for PlainFileDocument {
    type V = PlainFileView;

    closed spec fn view(&self) -> PlainFileView {
        PlainFileView { path: self.path@, original: self.original_editable_text@ }
    }
}

impl PlainFileDocument {
    /// A plain document for `path` whose dirty baseline is `original_editable_text`.
    pub fn new(path: String, original_editable_text: String) -> (d: Self)
        ensures
            d@ == (PlainFileView { path: path@, original: original_editable_text@ }),
    {
        Self { path, original_editable_text }
    }

    /// The backing file's path.
    pub fn path(&self) -> (p: &str)
        ensures
            p@ == self@.path,
    {
        self.path.as_str()
    }

    /// The diagram as last loaded or saved.
    pub fn original_editable_text(&self) -> (t: &str)
        ensures
            t@ == self@.original,
    {
        self.original_editable_text.as_str()
    }

    /// Whether `current_editable_text` differs from the baseline.
    pub fn is_dirty(&self, current_editable_text: &str) -> (b: bool)
        ensures
            b == (self@.original != current_editable_text@),
    {
        !same_text(self.original_editable_text.as_str(), current_editable_text)
    }
}

/// A markdown file whose first diagram fence body is the edited diagram.
#[derive(Debug, Clone, PartialEq, Eq)]
pub struct MarkdownBackedDocument {
    path: String,
    before_first_fence: String,
    opening_fence_line: String,
    original_editable_text: String,
    closing_fence_line: String,
    after_first_fence: String,
}

impl View for MarkdownBackedDocument {
    type V = MarkdownView;

    closed spec fn view(&self) -> MarkdownView {
        MarkdownView {
            path: self.path@,
            parts: FenceParts {
                before: self.before_first_fence@,
                opening: self.opening_fence_line@,
                body: self.original_editable_text@,
                closing: self.closing_fence_line@,
                after: self.after_first_fence@,
            },
        }
    }
}

impl MarkdownBackedDocument {
    /// A markdown document made of the given parts.
    pub fn new(
        path: String,
        before_first_fence: String,
        opening_fence_line: String,
        original_editable_text: String,
        closing_fence_line: String,
        after_first_fence: String,
    ) -> (d: Self)
        ensures
            d@ == (MarkdownView {
                path: path@,
                parts: FenceParts {
                    before: before_first_fence@,
                    opening: opening_fence_line@,
                    body: original_editable_text@,
                    closing: closing_fence_line@,
                    after: after_first_fence@,
                },
            }),
    {
        Self {
            path,
            before_first_fence,
            opening_fence_line,
            original_editable_text,
            closing_fence_line,
            after_first_fence,
        }
    }

    /// The backing file's path.
    pub fn path(&self) -> (p: &str)
        ensures
            p@ == self@.path,
    {
        self.path.as_str()
    }

    /// Everything before the opening fence line.
    pub fn before_first_fence(&self) -> (t: &str)
        ensures
            t@ == self@.parts.before,
    {
        self.before_first_fence.as_str()
    }

    /// The opening fence line, with its line feed.
    pub fn opening_fence_line(&self) -> (t: &str)
        ensures
            t@ == self@.parts.opening,
    {
        self.opening_fence_line.as_str()
    }

    /// The fence body as last loaded or saved.
    pub fn original_editable_text(&self) -> (t: &str)
        ensures
            t@ == self@.parts.body,
    {
        self.original_editable_text.as_str()
    }

    /// The closing fence line, with its line feed when it has one.
    pub fn closing_fence_line(&self) -> (t: &str)
        ensures
            t@ == self@.parts.closing,
    {
        self.closing_fence_line.as_str()
    }

    /// Everything after the closing fence line.
    pub fn after_first_fence(&self) -> (t: &str)
        ensures
            t@ == self@.parts.after,
    {
        self.after_first_fence.as_str()
    }

    /// Whether `current_editable_text` differs from the fence body baseline.
    pub fn is_dirty(&self, current_editable_text: &str) -> (b: bool)
        ensures
            b == (self@.parts.body != current_editable_text@),
    {
        !same_text(self.original_editable_text.as_str(), current_editable_text)
    }

    /// The markdown file with `current_editable_text` as the fence body and every
    /// other part as loaded.
    pub fn reconstruct_with(&self, current_editable_text: &str) -> (r: String)
        ensures
            r@ == rebuilt(self@.parts, current_editable_text@),
    {
        let mut rebuilt_text = String::new();
        string_push_str(&mut rebuilt_text, self.before_first_fence.as_str());
        string_push_str(&mut rebuilt_text, self.opening_fence_line.as_str());
        let ghost head = rebuilt_text@;
        let nonempty = !current_editable_text.is_empty();
        if nonempty {
            string_push_str(&mut rebuilt_text, current_editable_text);
            if !ends_with_newline(current_editable_text) {
                string_push(&mut rebuilt_text, '\n');
            }
        }
        assert(rebuilt_text@ =~= head + body_block(current_editable_text@));
        string_push_str(&mut rebuilt_text, self.closing_fence_line.as_str());
        string_push_str(&mut rebuilt_text, self.after_first_fence.as_str());
        rebuilt_text
    }
}

/// The document behind the editor.
#[derive(Debug, Clone, PartialEq, Eq)]
pub enum FileMode {
    Scratch(ScratchDocument),
    PlainFile(PlainFileDocument),
    MarkdownBacked(MarkdownBackedDocument),
}

impl View for FileMode {
    type V = FileModeView;

    open spec fn view(&self) -> FileModeView {
        match self {
            FileMode::Scratch(_) => FileModeView::Scratch,
            FileMode::PlainFile(d) => FileModeView::PlainFile(d@),
            FileMode::MarkdownBacked(d) => FileModeView::MarkdownBacked(d@),
        }
    }
}

/// What the host found at a path it was asked to open.
#[derive(Debug, Clone, PartialEq, Eq)]
pub enum LoadedFile {
    /// Nothing exists at the path.
    Missing,
    /// The path names a directory.
    Directory,
    /// The file's contents, read as UTF-8 text.
    Text(String),
    /// The path could not be inspected or read; the reason as the system gave it.
    Unreadable(String),
}

/// Why a path could not be opened.
#[derive(Debug, Clone, PartialEq, Eq)]
pub enum FileLoadError {
    /// The path names a directory.
    Directory(String),
    /// The path could not be read.
    Read { path: String, reason: String },
}

/// The text of a load error: what `Display` prints for it.
pub open spec fn load_error_text(e: FileLoadError) -> Seq<char> {
    match e {
        FileLoadError::Directory(path) => path@ + " is a directory; expected a text file"@,
        FileLoadError::Read { path, reason } => "failed to read "@ + path@ + ": "@ + reason@,
    }
}

impl FileLoadError {
    /// The error's message.
    pub fn message(&self) -> (m: String)
        ensures
            m@ == load_error_text(*self),
    {
        let mut m = String::new();
        match self {
            FileLoadError::Directory(path) => {
                string_push_str(&mut m, path.as_str());
                string_push_str(&mut m, " is a directory; expected a text file");
            },
            FileLoadError::Read { path, reason } => {
                string_push_str(&mut m, "failed to read ");
                string_push_str(&mut m, path.as_str());
                string_push_str(&mut m, ": ");
                string_push_str(&mut m, reason.as_str());
            },
        }
        m
    }
}

impl FileMode {
    /// Scratch mode.
    pub fn scratch() -> (m: Self)
        ensures
            m@ == FileModeView::Scratch,
    {
        FileMode::Scratch(ScratchDocument)
    }

    /// The document for what the host found at `path`: a missing file starts as an
    /// empty plain document, a directory or an unreadable path is an error, and a
    /// readable file loads as `from_existing_text` says.
    pub fn from_load_result(path: String, loaded: LoadedFile) -> (r: Result<Self, FileLoadError>)
        ensures
            match loaded {
                LoadedFile::Missing => r matches Ok(m) && m@ == FileModeView::PlainFile(
                    PlainFileView { path: path@, original: Seq::empty() },
                ),
                LoadedFile::Directory => r == Err::<Self, FileLoadError>(
                    FileLoadError::Directory(path),
                ),
                LoadedFile::Text(text) => r matches Ok(m) && m@ == loaded_mode(path@, text@),
                LoadedFile::Unreadable(reason) => r == Err::<Self, FileLoadError>(
                    FileLoadError::Read { path, reason },
                ),
            },
    {
        match loaded {
            LoadedFile::Missing => Ok(
                FileMode::PlainFile(PlainFileDocument::new(path, String::new())),
            ),
            LoadedFile::Directory => Err(FileLoadError::Directory(path)),
            LoadedFile::Text(text) => Ok(Self::from_existing_text(path, text.as_str())),
            LoadedFile::Unreadable(reason) => Err(FileLoadError::Read { path, reason }),
        }
    }

    /// The document for a file at `path` holding `text`.
    pub fn from_existing_text(path: String, text: &str) -> (m: Self)
        ensures
            m@ == loaded_mode(path@, text@),
    {
        let normalized_text = normalize_newlines(text);
        match parse_markdown_backed_document(path.clone(), normalized_text.as_str()) {
            Some(parsed) => FileMode::MarkdownBacked(parsed),
            None => FileMode::PlainFile(PlainFileDocument::new(path, normalized_text)),
        }
    }

    /// The backing file's path; none in scratch mode.
    pub fn path(&self) -> (p: Option<&str>)
        ensures
            match p {
                Some(s) => mode_path(self@) == Some(s@),
                None => mode_path(self@) is None,
            },
    {
        match self {
            FileMode::Scratch(_) => None,
            FileMode::PlainFile(doc) => Some(doc.path()),
            FileMode::MarkdownBacked(doc) => Some(doc.path()),
        }
    }

    /// The diagram as last loaded or saved.
    pub fn original_editable_text(&self) -> (t: &str)
        ensures
            t@ == mode_original(self@),
    {
        match self {
            FileMode::Scratch(_) => {
                proof {
                    reveal_strlit("");
                }
                ""
            },
            FileMode::PlainFile(doc) => doc.original_editable_text(),
            FileMode::MarkdownBacked(doc) => doc.original_editable_text(),
        }
    }

    /// Whether the diagram has unsaved changes.
    pub fn is_dirty(&self, current_editable_text: &str) -> (b: bool)
        ensures
            b == mode_dirty(self@, current_editable_text@),
    {
        match self {
            FileMode::Scratch(_) => false,
            FileMode::PlainFile(doc) => doc.is_dirty(current_editable_text),
            FileMode::MarkdownBacked(doc) => doc.is_dirty(current_editable_text),
        }
    }

    /// The file contents that saving `current_editable_text` writes.
    pub fn save_payload(&self, current_editable_text: &str) -> (r: Option<String>)
        ensures
            match r {
                Some(s) => mode_payload(self@, current_editable_text@) == Some(s@),
                None => mode_payload(self@, current_editable_text@) is None,
            },
    {
        match self {
            FileMode::Scratch(_) => None,
            FileMode::PlainFile(_) => Some(owned(current_editable_text)),
            FileMode::MarkdownBacked(doc) => Some(doc.reconstruct_with(current_editable_text)),
        }
    }

    /// Makes `current_editable_text` the new dirty baseline after a save.
    pub fn mark_saved(&mut self, current_editable_text: String)
        ensures
            final(self)@ == mode_saved(old(self)@, current_editable_text@),
        no_unwind
    {
        match self {
            FileMode::Scratch(_) => {},
            FileMode::PlainFile(doc) => {
                doc.original_editable_text = current_editable_text;
            },
            FileMode::MarkdownBacked(doc) => {
                doc.original_editable_text = current_editable_text;
            },
        }
    }
}

/// One step of `normalized` at position `i`.
proof fn lemma_normalized_step(s: Seq<char>, i: int)
    requires
        0 <= i < s.len(),
    ensures
        s[i] == '\r' && i + 1 < s.len() && s[i + 1] == '\n' ==> normalized(s.skip(i))
            == seq!['\n'] + normalized(s.skip(i + 2)),
        !(s[i] == '\r' && i + 1 < s.len() && s[i + 1] == '\n') ==> normalized(s.skip(i)) == seq![
            if s[i] == '\r' {
                '\n'
            } else {
                s[i]
            },
        ] + normalized(s.skip(i + 1)),
{
    let r = s.skip(i);
    assert(r[0] == s[i]);
    if r.len() > 1 {
        assert(r[1] == s[i + 1]);
    }
    if i + 2 <= s.len() {
        assert(r.skip(2) =~= s.skip(i + 2));
    }
    assert(r.skip(1) =~= s.skip(i + 1));
}

/// `text` with `\r\n` and lone `\r` turned into `\n`.
pub fn normalize_newlines(text: &str) -> (r: String)
    ensures
        r@ == normalized(text@),
{
    let v = chars_of(text);
    let mut r = String::new();
    let mut i: usize = 0;
    assert(v@.skip(0) =~= v@);
    while i < v.len()
        invariant
            0 <= i <= v.len(),
            v@ == text@,
            normalized(v@) == r@ + normalized(v@.skip(i as int)),
        decreases v.len() - i,
    {
        proof {
            lemma_normalized_step(v@, i as int);
        }
        let ghost before = r@;
        if v[i] == '\r' && i + 1 < v.len() && v[i + 1] == '\n' {
            string_push(&mut r, '\n');
            i = i + 2;
        } else {
            if v[i] == '\r' {
                string_push(&mut r, '\n');
            } else {
                string_push(&mut r, v[i]);
            }
            i = i + 1;
        }
        assert(before + (seq![r@.last()] + normalized(v@.skip(i as int))) =~= r@ + normalized(
            v@.skip(i as int),
        ));
    }
    assert(v@.skip(v.len() as int) =~= Seq::<char>::empty());
    assert(r@ + Seq::<char>::empty() =~= r@);
    r
}

/// The markdown document for `text` when it holds a diagram fence.
pub fn parse_markdown_backed_document(path: String, text: &str) -> (r: Option<MarkdownBackedDocument>)
    ensures
        match fence_parts(text@) {
            Some(parts) => r matches Some(d) && d@ == (MarkdownView { path: path@, parts }),
            None => r is None,
        },
{
    let chars = chars_of(text);
    let segs = split_segments(&chars);
    let ghost s = seg_views(segs@);
    match find_first_recognized_fence(&segs) {
        None => None,
        Some((i, j)) => {
            let n = segs.len();
            let before = concat_segments(&segs, 0, i);
            let opening = concat_segments(&segs, i, i + 1);
            let region = concat_segments(&segs, i + 1, j);
            let closing = concat_segments(&segs, j, j + 1);
            let after = concat_segments(&segs, j + 1, n);
            let body_end = if region.len() > 0 && region[region.len() - 1] == '\n' {
                region.len() - 1
            } else {
                region.len()
            };
            proof {
                assert(s.subrange(0, i as int) =~= s.take(i as int));
                assert(s.subrange(j + 1, n as int) =~= s.skip(j + 1));
                s.subrange(i as int, i + 1).lemma_flatten_one_element();
                s.subrange(j as int, j + 1).lemma_flatten_one_element();
                assert(region@.subrange(0, body_end as int) =~= crate::fence::drop_trailing_newline(region@));
                assert(before@.subrange(0, before@.len() as int) =~= before@);
                assert(opening@.subrange(0, opening@.len() as int) =~= opening@);
                assert(closing@.subrange(0, closing@.len() as int) =~= closing@);
                assert(after@.subrange(0, after@.len() as int) =~= after@);
            }
            Some(
                MarkdownBackedDocument::new(
                    path,
                    string_of(&before, 0, before.len()),
                    string_of(&opening, 0, opening.len()),
                    string_of(&region, 0, body_end),
                    string_of(&closing, 0, closing.len()),
                    string_of(&after, 0, after.len()),
                ),
            )
        },
    }
}

} // verus!
