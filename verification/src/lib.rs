//! Host-side logic of the `tg` terminal diagram editor.
pub mod chrome;
pub mod cli;
pub mod editor_state;
pub mod fence;
pub mod host;
pub mod keys;
pub mod file_mode;
pub mod lines;
pub mod recording;
pub mod render;
pub mod save_laws;
pub mod text;
