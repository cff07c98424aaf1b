use mywork::db::{migration_statements, schema_statements};
use mywork::executor::streaming::{
    line_size, poc_events, stream_event, BufferState, OutputEvent, PoCEvent, StreamLine,
    MAX_BUFFER_BYTES,
};
use mywork::models::execution::Execution;
use mywork::storage::{running_task_ids, stored_file_name};

#[test]
fn line_sizes_count_bytes_and_newline() {
    assert_eq!(line_size(&StreamLine::Stdout("abc".to_string())), 4);
    assert_eq!(line_size(&StreamLine::Stderr("é".to_string())), 3);
    assert_eq!(line_size(&StreamLine::Finished), 1);
}

#[test]
fn buffer_keeps_within_limit_dropping_oldest() {
    let mut buffer = BufferState::new();
    let line = "x".repeat(512);
    for _ in 0..4096 {
        buffer.push(StreamLine::Stdout(line.clone()));
        assert!(buffer.total_bytes() <= MAX_BUFFER_BYTES);
    }
    assert_eq!(buffer.next_id(), 4096);
    assert_eq!(buffer.total_bytes(), 2044 * 513);
    buffer.clear_through(4095);
    assert_eq!(buffer.total_bytes(), 0);
}

#[test]
fn clearing_removes_read_lines_only() {
    let mut buffer = BufferState::new();
    buffer.push(StreamLine::Stdout("a".to_string()));
    buffer.push(StreamLine::Stderr("bb".to_string()));
    buffer.push(StreamLine::Finished);
    assert_eq!(buffer.total_bytes(), 2 + 3 + 1);
    buffer.clear_through(0);
    assert_eq!(buffer.total_bytes(), 3 + 1);
    buffer.clear_through(0);
    assert_eq!(buffer.total_bytes(), 3 + 1);
    buffer.clear_through(2);
    assert_eq!(buffer.total_bytes(), 0);
}

#[test]
fn oversized_line_is_dropped_at_once() {
    let mut buffer = BufferState::new();
    buffer.push(StreamLine::Stdout("y".repeat(MAX_BUFFER_BYTES)));
    assert_eq!(buffer.total_bytes(), 0);
    assert_eq!(buffer.next_id(), 1);
}

#[test]
fn stream_events_for_lines() {
    assert_eq!(
        stream_event(Some(StreamLine::Stdout("out".to_string())), None),
        (OutputEvent::Output { text: "out".to_string(), source: "stdout".to_string() }, false)
    );
    assert_eq!(
        stream_event(Some(StreamLine::Stderr("err".to_string())), None),
        (OutputEvent::Output { text: "err".to_string(), source: "stderr".to_string() }, false)
    );
    assert_eq!(stream_event(Some(StreamLine::Finished), Some(0)), (OutputEvent::Finished { exit_code: 0 }, true));
    assert_eq!(stream_event(None, None), (OutputEvent::Finished { exit_code: -1 }, true));
}

#[test]
fn channel_check_events() {
    let events = poc_events();
    assert_eq!(events.len(), 8);
    assert_eq!(events[0], PoCEvent::Message { text: "Starting stream test...".to_string() });
    assert_eq!(events[1], PoCEvent::Progress { percent: 0 });
    assert_eq!(events[6], PoCEvent::Progress { percent: 100 });
    assert_eq!(events[7], PoCEvent::Done);
}

#[test]
fn schema_script_statements() {
    let schema = "CREATE TABLE a (x INT);\n  \nCREATE INDEX i ON a(x) ;  ;";
    assert_eq!(
        schema_statements(schema),
        vec!["CREATE TABLE a (x INT)".to_string(), "CREATE INDEX i ON a(x)".to_string()]
    );
    assert!(schema_statements("").is_empty());
}

#[test]
fn migrations_needed() {
    assert_eq!(
        migration_statements(true, false),
        vec![
            "ALTER TABLE tasks DROP COLUMN skip_if_running".to_string(),
            "ALTER TABLE tasks ADD COLUMN once_at TEXT".to_string()
        ]
    );
    assert!(migration_statements(false, true).is_empty());
}

#[test]
fn stored_output_names_and_running_tasks() {
    assert_eq!(stored_file_name("e1"), "e1.txt");
    let e = |id: &str, task: &str| Execution {
        id: id.to_string(),
        task_id: task.to_string(),
        session_id: None,
        status: "running".to_string(),
        started_at: "a".to_string(),
        finished_at: None,
        output_file: None,
        error_message: None,
    };
    assert_eq!(running_task_ids(vec![e("1", "ta"), e("2", "tb")]), vec!["ta".to_string(), "tb".to_string()]);
}
