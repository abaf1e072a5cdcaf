# tg

`tg` is a text diagram editor for the terminal. This crate holds the host side
of it as a verified library: file-backed documents (plain files and markdown
files whose first `textagram` fence body is the diagram), save and quit-prompt
state, command line parsing, title chrome, key translation, the host's key
decisions, and session recordings.

- `src/` — the library, verified with Verus. `save_laws.rs` states what saving
  and loading promise of each other.
- `tests/` — tests of the library.
- `app/` — the terminal program around it: event loop, drawing, clipboard and
  file I/O. It needs the Textagram core engine.
