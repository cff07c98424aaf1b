//! Driving the opencode CLI: reading session ids and events from its output,
//! the errors and results of a run, and the session of the application.

pub mod event;
pub mod executor;
pub mod session_parser;
