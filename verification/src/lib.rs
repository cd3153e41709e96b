//! FlowCut editing core: project model, timeline editing, undo history,
//! export job tracking and engine status, with their contracts.

pub mod commands;
pub mod deep_copy;
pub mod engine;
pub mod export;
pub mod ids;
pub mod json;
pub mod project;
pub mod search;
pub mod text;
pub mod utils;

