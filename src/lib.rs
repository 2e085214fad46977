//! The core of a terminal text editor: document rows with their tab-expanded display
//! form, loading and saving the document's text, the frame shown on the terminal, and
//! the key-press state machine that edits, moves, saves and searches.

use vstd::prelude::*;

pub mod buffer;
pub mod editor;
pub mod position;
pub mod row;
pub mod screen;
pub mod search;
pub mod text;

pub use buffer::{rows_from_text, rows_to_text};
pub use editor::{Action, Editor, Key, Modifiers, PromptKind};
pub use position::{Direction, Position};
pub use row::Row;
pub use screen::Screen;
pub use search::find_in_rows;

verus! {

} // verus!
