//! Orchestration core of a peer-to-peer file-transfer tool: a state-machine
//! engine paced by a frame clock, non-blocking inter-thread channels, and a
//! navigable, self-re-parsing list of user-entered file paths.

pub mod backend;
pub mod error;
pub mod file_processing;
pub mod server;
pub mod settings;
pub mod ui;
pub mod util;
pub mod widget;
