//! An in-memory hex editor engine: a byte buffer with validated edits, the
//! window of rows to render for a scroll position, and a search over the
//! bytes with a cursor that steps through the matches.

pub mod text;
pub mod buffer;
pub mod window;
pub mod search;
pub mod editor;

pub use editor::{HexEditor, Msg};
pub use search::SearchMode;
