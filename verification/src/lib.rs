//! A small terminal text editor: the verified core.
//!
//! The library holds the editor's document model (lines made of grapheme
//! clusters, the buffer of lines), the caret and scrolling logic of the view,
//! the translation of key presses into commands, and the editor's decisions
//! (quitting, saving, status).  Terminal and file I/O stay with the caller.
use vstd::prelude::*;

pub mod unicode;
pub mod line;
pub mod terminal;
pub mod location;
pub mod fileinfo;
pub mod buffer;
pub mod editorcommand;
pub mod documentstatus;
pub mod view;
pub mod input;
pub mod command;
pub mod messagebar;
pub mod editor;
pub mod cjk;

verus! {

/// The editor's name.
pub const NAME: &'static str = "hecto";

/// The editor's version.
pub const VERSION: &'static str = "0.1.0";

} // verus!
