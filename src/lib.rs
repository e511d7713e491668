//! A terminal line editor: the text buffer, the editor's state machine and
//! the decisions of its event sources, each with a verified contract.

pub mod document;
mod text;
pub mod terminal;
pub mod editor;
