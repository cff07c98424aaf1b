//! Scheduling, parsing and bookkeeping logic of the MyWork task scheduler.

pub mod commands;
pub mod db;
pub mod environment;
pub mod executor;
pub mod json;
pub mod models;
pub mod opencode;
pub mod power_monitor;
pub mod scheduler;
pub mod storage;
pub mod text;
pub mod time;
