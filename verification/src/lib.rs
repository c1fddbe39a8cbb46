//! The state machine of a terminal client for a local model daemon:
//! session state, key and event handling, list filtering and selection.

pub mod app;
pub mod control;
pub mod error;
pub mod events;
pub mod handlers;
pub mod input;
pub mod laws;
pub mod ollama_api;
pub mod registry_api;
pub mod tasks;
pub mod text;
pub mod ui;
