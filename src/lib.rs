//! A small modal terminal text editor: row-oriented text storage, the
//! character-level edits on it, and the cursor/viewport coordination that keeps
//! a bounded window of the text on screen.
pub mod editor;
pub mod terminal;
pub mod text_buffer;

pub use editor::Editor;
