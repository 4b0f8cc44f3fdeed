//! The decisions of a plugin that posts the current faff, the active session of a log, to a Matrix
//! room: reading its configuration, telling what changed between two readings of the log, wording
//! the message, and deciding what becomes of it.
pub mod backoff;
pub mod collections;
pub mod config;
pub mod delivery;
pub mod error;
pub mod matrix;
pub mod moment;
pub mod session;
pub mod template;
pub mod text;
pub mod transition;
pub mod watcher;
