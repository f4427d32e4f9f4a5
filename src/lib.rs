//! A small modal text editor core: the key dispatcher that drives the
//! editor's modes, the command-line grammar, and the whole-buffer
//! transforms (JSON pretty-printing, base64) that commands run.
pub mod keys;
pub mod dispatch;
pub mod command;
pub mod json;
pub mod transform;
pub mod editor;
