//! Process-level command line parsing, startup checks, and help/version text.
use vstd::prelude::*;

use crate::text::{chars_of, owned, same_text, string_push_str};

verus! {

/// One line that says what `tg` is.
pub const DESCRIPTION: &'static str = "A text diagram editor for the terminal";

/// The package version that `--version` reports.
pub const VERSION: &'static str = "0.1.0";

/// The usage block shown by `--help` and after argument errors.
pub const USAGE: &'static str = "Usage:\n  tg\n  tg FILE\n  tg -h | --help\n  tg -V | --version";

/// The notes that follow the usage block in `--help`.
pub const HELP_NOTES: &'static str = "Notes:\n  - one file path maximum\n  - stdin/stdout redirection is not supported in this CLI\n  - FILE behavior follows file content: first recognized `textagram` fence body when present, whole file otherwise\n  - Ctrl+S saves in file-backed mode and is blocked in scratch mode\n  - q prompts to save in file-backed mode\n  - Q writes a repro recording and may discard unsaved file edits\n  - press ? in the editor for the full controls reference";

/// The message when stdin is not a terminal.
pub const STDIN_NOT_TTY: &'static str = "stdin redirection is not supported by `tg`; run it on a terminal";

/// The message when stdout is not a terminal.
pub const STDOUT_NOT_TTY: &'static str = "stdout redirection is not supported by `tg`; run it on a terminal";

/// What the command line asks for.
#[derive(Debug, Clone, PartialEq, Eq)]
pub struct CliConfig {
    pub show_help: bool,
    pub show_version: bool,
    pub file_path: Option<String>,
}

/// What a parsed command line holds.
pub struct CliView {
    pub show_help: bool,
    pub show_version: bool,
    pub file_path: Option<Seq<char>>,
}

impl View for CliConfig {
    type V = CliView;

    open spec fn view(&self) -> CliView {
        CliView {
            show_help: self.show_help,
            show_version: self.show_version,
            file_path: match self.file_path {
                Some(p) => Some(p@),
                None => None,
            },
        }
    }
}

/// A command line or startup error, with the message to print.
#[derive(Debug, Clone, PartialEq, Eq)]
pub struct CliError {
    message: String,
}

impl View for CliError {
    type V = Seq<char>;

    closed spec fn view(&self) -> Seq<char> {
        self.message@
    }
}

/// `-h` or `--help`.
pub open spec fn is_help_flag(a: Seq<char>) -> bool {
    a == "-h"@ || a == "--help"@
}

/// `-V` or `--version`.
pub open spec fn is_version_flag(a: Seq<char>) -> bool {
    a == "-V"@ || a == "--version"@
}

/// The message for an unknown flag.
pub open spec fn unknown_flag_text(flag: Seq<char>) -> Seq<char> {
    "unknown flag: "@ + flag + "\n\n"@ + USAGE@
}

/// The message for a second file path.
pub open spec fn too_many_paths_text() -> Seq<char> {
    "expected at most one file path\n\n"@ + USAGE@
}

/// The outcome of reading `args[k..]` after the flags and path seen so far: an
/// argument that starts with `-` and is neither help nor version is an unknown
/// flag, a second non-flag argument is one path too many, and the first error
/// ends the reading.
pub open spec fn parse_from(
    args: Seq<Seq<char>>,
    k: int,
    help: bool,
    version: bool,
    path: Option<Seq<char>>,
) -> Result<CliView, Seq<char>>
    decreases args.len() - k,
{
    if k >= args.len() {
        Ok(CliView { show_help: help, show_version: version, file_path: path })
    } else {
        let a = args[k];
        if is_help_flag(a) {
            parse_from(args, k + 1, true, version, path)
        } else if is_version_flag(a) {
            parse_from(args, k + 1, help, true, path)
        } else if a.len() > 0 && a[0] == '-' {
            Err(unknown_flag_text(a))
        } else if path is Some {
            Err(too_many_paths_text())
        } else {
            parse_from(args, k + 1, help, version, Some(a))
        }
    }
}

/// What parsing a whole command line gives; the first argument is the program.
pub open spec fn parsed_command_line(args: Seq<Seq<char>>) -> Result<CliView, Seq<char>> {
    parse_from(args, 1, false, false, None)
}

/// The characters of each argument.
pub open spec fn arg_views(args: Seq<String>) -> Seq<Seq<char>> {
    args.map_values(|a: String| a@)
}

impl CliConfig {
    /// Parses the process arguments, the first being the program itself.
    pub fn parse(args: Vec<String>) -> (r: Result<Self, CliError>)
        ensures
            match parsed_command_line(arg_views(args@)) {
                Ok(v) => r matches Ok(c) && c@ == v,
                Err(m) => r matches Err(e) && e@ == m,
            },
    {
        let ghost views = arg_views(args@);
        let mut show_help = false;
        let mut show_version = false;
        let mut file_path: Option<String> = None;
        let mut i: usize = 1;
        while i < args.len()
            invariant
                1 <= i,
                i <= args.len() || args.len() == 0,
                views == arg_views(args@),
                parsed_command_line(views) == parse_from(
                    views,
                    i as int,
                    show_help,
                    show_version,
                    match file_path {
                        Some(p) => Some(p@),
                        None => None,
                    },
                ),
            decreases args.len() - i,
        {
            let arg = &args[i];
            assert(views[i as int] == arg@);
            if same_text(arg.as_str(), "-h") || same_text(arg.as_str(), "--help") {
                show_help = true;
            } else if same_text(arg.as_str(), "-V") || same_text(arg.as_str(), "--version") {
                show_version = true;
            } else {
                let cs = chars_of(arg.as_str());
                if cs.len() > 0 && cs[0] == '-' {
                    return Err(CliError::unknown_flag(arg.as_str()));
                }
                if file_path.is_some() {
                    return Err(CliError::too_many_paths());
                }
                file_path = Some(arg.clone());
            }
            i = i + 1;
        }
        Ok(Self { show_help, show_version, file_path })
    }
}

impl CliError {
    /// The message to print.
    pub fn message(&self) -> (m: String)
        ensures
            m@ == self@,
    {
        self.message.clone()
    }

    fn unknown_flag(flag: &str) -> (e: Self)
        ensures
            e@ == unknown_flag_text(flag@),
    {
        let mut message = String::new();
        string_push_str(&mut message, "unknown flag: ");
        string_push_str(&mut message, flag);
        string_push_str(&mut message, "\n\n");
        string_push_str(&mut message, usage_block());
        Self { message }
    }

    fn too_many_paths() -> (e: Self)
        ensures
            e@ == too_many_paths_text(),
    {
        let mut message = String::new();
        string_push_str(&mut message, "expected at most one file path\n\n");
        string_push_str(&mut message, usage_block());
        Self { message }
    }

    /// The error for a redirected stdin.
    pub fn stdin_not_tty() -> (e: Self)
        ensures
            e@ == STDIN_NOT_TTY@,
    {
        Self { message: owned(STDIN_NOT_TTY) }
    }

    /// The error for a redirected stdout.
    pub fn stdout_not_tty() -> (e: Self)
        ensures
            e@ == STDOUT_NOT_TTY@,
    {
        Self { message: owned(STDOUT_NOT_TTY) }
    }
}

/// Refuses to start unless both stdin and stdout are terminals; stdin is checked first.
pub fn validate_startup_io(stdin_is_tty: bool, stdout_is_tty: bool) -> (r: Result<(), CliError>)
    ensures
        !stdin_is_tty ==> (r matches Err(e) && e@ == STDIN_NOT_TTY@),
        stdin_is_tty && !stdout_is_tty ==> (r matches Err(e) && e@ == STDOUT_NOT_TTY@),
        stdin_is_tty && stdout_is_tty ==> r is Ok,
{
    if !stdin_is_tty {
        return Err(CliError::stdin_not_tty());
    }
    if !stdout_is_tty {
        return Err(CliError::stdout_not_tty());
    }
    Ok(())
}

/// The `--help` text: the description, the usage block, and the notes.
pub open spec fn help_text() -> Seq<char> {
    DESCRIPTION@ + "\n\n"@ + USAGE@ + "\n\n"@ + HELP_NOTES@
}

/// The `--help` text.
pub fn render_help() -> (s: String)
    ensures
        s@ == help_text(),
{
    let mut s = String::new();
    string_push_str(&mut s, DESCRIPTION);
    string_push_str(&mut s, "\n\n");
    string_push_str(&mut s, USAGE);
    string_push_str(&mut s, "\n\n");
    string_push_str(&mut s, HELP_NOTES);
    s
}

/// The `--version` text: `tg` and the package version.
pub fn render_version() -> (s: String)
    ensures
        s@ == "tg "@ + VERSION@,
{
    let mut s = String::new();
    string_push_str(&mut s, "tg ");
    string_push_str(&mut s, VERSION);
    s
}

/// The usage block.
pub fn usage_block() -> (s: &'static str)
    ensures
        s@ == USAGE@,
{
    USAGE
}

/// Argument `j` is `-h` or `--help`.
pub open spec fn help_arg(args: Seq<Seq<char>>, j: int) -> bool {
    args[j] == "-h"@ || args[j] == "--help"@
}

/// Argument `j` is `-V` or `--version`.
pub open spec fn version_arg(args: Seq<Seq<char>>, j: int) -> bool {
    args[j] == "-V"@ || args[j] == "--version"@
}

/// Argument `j` starts with `-` but is neither of the flags above.
pub open spec fn other_flag_arg(args: Seq<Seq<char>>, j: int) -> bool {
    !help_arg(args, j) && !version_arg(args, j) && args[j].len() > 0 && args[j][0] == '-'
}

/// Argument `j` is not a flag: it names a file.
pub open spec fn path_arg(args: Seq<Seq<char>>, j: int) -> bool {
    !help_arg(args, j) && !version_arg(args, j) && !(args[j].len() > 0 && args[j][0] == '-')
}

/// What reading `args[k..]` gives, given the flags and path read before `k`.
proof fn lemma_parse_from(
    args: Seq<Seq<char>>,
    k: int,
    help: bool,
    version: bool,
    path: Option<Seq<char>>,
)
    requires
        0 <= k,
    ensures
        match parse_from(args, k, help, version, path) {
            Ok(v) => {
                &&& v.show_help == (help || exists|j: int|
                    k <= j < args.len() && #[trigger] help_arg(args, j))
                &&& v.show_version == (version || exists|j: int|
                    k <= j < args.len() && #[trigger] version_arg(args, j))
                &&& (v.file_path is None <==> path is None && forall|j: int|
                    k <= j < args.len() ==> !#[trigger] path_arg(args, j))
                &&& (v.file_path matches Some(q) ==> path == Some(q) || exists|j: int|
                    k <= j < args.len() && #[trigger] path_arg(args, j) && args[j] == q)
                &&& forall|j: int| k <= j < args.len() ==> !#[trigger] other_flag_arg(args, j)
                &&& (path is Some ==> forall|j: int|
                    k <= j < args.len() ==> !#[trigger] path_arg(args, j))
                &&& forall|i: int, j: int|
                    k <= i < j < args.len() && #[trigger] path_arg(args, i) ==> !#[trigger] path_arg(
                        args,
                        j,
                    )
            },
            Err(_) => {
                ||| exists|j: int| k <= j < args.len() && #[trigger] other_flag_arg(args, j)
                ||| (path is Some && exists|j: int|
                    k <= j < args.len() && #[trigger] path_arg(args, j))
                ||| exists|i: int, j: int|
                    k <= i < j < args.len() && #[trigger] path_arg(args, i) && #[trigger] path_arg(
                        args,
                        j,
                    )
            },
        },
    decreases args.len() - k,
{
    reveal_strlit("-h");
    reveal_strlit("--help");
    reveal_strlit("-V");
    reveal_strlit("--version");
    assert("-h"@[1] != "-V"@[1]);
    assert("-h"@ != "-V"@);
    assert("-h"@.len() != "--version"@.len());
    assert("--help"@.len() != "-V"@.len());
    assert("--help"@.len() != "--version"@.len());
    if k < args.len() {
        let a = args[k];
        assert(help_arg(args, k) == is_help_flag(a));
        assert(version_arg(args, k) == is_version_flag(a));
        if is_help_flag(a) {
            lemma_parse_from(args, k + 1, true, version, path);
        } else if is_version_flag(a) {
            lemma_parse_from(args, k + 1, help, true, path);
        } else if a.len() > 0 && a[0] == '-' {
            assert(other_flag_arg(args, k));
        } else if path is Some {
            assert(path_arg(args, k));
        } else {
            assert(path_arg(args, k));
            lemma_parse_from(args, k + 1, help, version, Some(a));
        }
    }
}

/// The command line after the program name asks for help exactly when some
/// argument is `-h` or `--help`, and for the version exactly when some argument
/// is `-V` or `--version`. It is accepted exactly when no other argument starts
/// with `-` and at most one argument is a path, which is then the file path.
pub proof fn law_command_line(args: Seq<Seq<char>>)
    ensures
        parsed_command_line(args) is Ok <==> (forall|j: int|
            1 <= j < args.len() ==> !#[trigger] other_flag_arg(args, j)) && (forall|i: int, j: int|
            1 <= i < j < args.len() && #[trigger] path_arg(args, i) ==> !#[trigger] path_arg(
                args,
                j,
            )),
        parsed_command_line(args) matches Ok(v) ==> {
            &&& v.show_help == exists|j: int| 1 <= j < args.len() && #[trigger] help_arg(args, j)
            &&& v.show_version == exists|j: int|
                1 <= j < args.len() && #[trigger] version_arg(args, j)
            &&& (v.file_path is None <==> forall|j: int|
                1 <= j < args.len() ==> !#[trigger] path_arg(args, j))
            &&& (v.file_path matches Some(q) ==> exists|j: int|
                1 <= j < args.len() && #[trigger] path_arg(args, j) && args[j] == q)
        },
{
    lemma_parse_from(args, 1, false, false, None);
}

} // verus!