# mywork

The logic of the MyWork task scheduler, verified with Verus: it schedules
prompts for the `opencode` CLI with cron expressions, simple interval /
daily / weekly schedules or a one-time instant, runs them with a deadline,
keeps one instance per task, and records each run.

- `src/` — the verified library: cron validation (`scheduler::cron_parser`),
  simple schedules, the job registry, the task queue, process bookkeeping,
  task and execution records (`models`), opencode output parsing, the power
  state decisions, the bounded stream buffer, `PATH` merging and the
  decisions behind each command (`commands`). Running a task, deleting a
  task and handling a system wake are step functions from phase and event
  to next phase and action (`run_step`, `delete_step`, `wake_step`), with
  their laws proved over single steps and whole runs.
- `app/` — the program around it: SQLite through sqlx, the
  tokio-cron-scheduler engine, child processes and files; it drives the
  step functions, performing each action and handing back what it saw.
- `tests/` — tests of the library.
