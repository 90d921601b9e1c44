//! A small in-memory list editor: a collection of short text items with a
//! case-insensitive substring filter, a selection cursor over the filtered
//! view, a scratch buffer for composing new or edited items, and a modal
//! controller that interprets abstract key commands.
//!
//! Terminal input decoding and frame rendering are collaborators outside this
//! crate; the library itself is pure state and transition logic.

pub mod controller;
pub mod selection;
pub mod state;
pub mod text;
