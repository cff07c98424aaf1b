//! The stored records of the application: tasks and their executions.

pub mod execution;
pub mod task;
