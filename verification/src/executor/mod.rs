//! Streaming the output of a child process line by line.

pub mod streaming;
