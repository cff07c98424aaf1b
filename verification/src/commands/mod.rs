//! The decisions behind the application's commands: running a task,
//! loading the scheduler, editing tasks, and following the power state.

pub mod run_flow;
pub mod scheduler_commands;
pub mod scheduler_flow;
pub mod task_flow;
pub mod task_runner_commands;
pub mod wake_flow;
