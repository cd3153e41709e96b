//! The editor's command layer: validation, edits of the open project and
//! undo records, one function per command.

pub mod effects;
pub mod engine;
pub mod export;
pub mod keyboard;
pub mod media;
pub mod preview;
pub mod project;
pub mod timeline;
pub mod undo;
