use agent_core::dispatch::{begin_task, on_tool_complete, on_tool_request, RequestDecision, ToolRequest};
use agent_core::protocol::make_tool_response;
use agent_core::state::{AppState, ConnectionStatus, LogLevel, QueuedTask, SystemMetrics};
use agent_core::tools::{ToolInput, ToolResult};

fn calm_metrics() -> SystemMetrics {
    SystemMetrics {
        cpu_percent_tenths: 100,
        memory_used_mb: 1024,
        memory_total_mb: 8192,
        memory_percent_tenths: 125,
        active_commands: 0,
        queued_tasks: 0,
    }
}

fn overloaded_metrics() -> SystemMetrics {
    SystemMetrics {
        cpu_percent_tenths: 900,
        memory_used_mb: 4096,
        memory_total_mb: 8192,
        memory_percent_tenths: 500,
        active_commands: 0,
        queued_tasks: 0,
    }
}

fn run_command_request(id: &str) -> ToolRequest {
    ToolRequest {
        request_id: id.to_string(),
        session_id: "session-1".to_string(),
        tool: "run_command".to_string(),
        input: ToolInput {
            path: None,
            content: None,
            pattern: None,
            command: Some("sleep 2".to_string()),
        },
        cwd: None,
    }
}

#[test]
fn test_queueing_under_saturation() {
    let mut state = AppState::new();
    state.settings.max_concurrent_commands = 1;
    state.is_connected = true;

    // First command is admitted at once: no queue notice.
    let first = on_tool_request(&mut state, &run_command_request("req-1"), &calm_metrics(), 1_000);
    assert!(matches!(first, RequestDecision::ExecuteNow));
    assert_eq!(state.get_active_commands(), 1);
    assert_eq!(state.get_status(), ConnectionStatus::Working);
    assert_eq!(
        state.logs.back().unwrap().message,
        "Executing: run_command [1 active, 0 queued]"
    );

    // Second command finds the slot taken and is queued at position 1.
    let second = on_tool_request(&mut state, &run_command_request("req-2"), &calm_metrics(), 2_000);
    match second {
        RequestDecision::Queued { position, reason } => {
            assert_eq!(position, 1);
            assert_eq!(reason, "Max concurrent commands (1) reached");
            assert!(reason.contains("Max concurrent commands (1) reached"));
        }
        _ => panic!("expected the second command to queue"),
    }
    assert_eq!(state.get_active_commands(), 1);
    assert_eq!(state.get_queue_length(), 1);

    assert_eq!(
        state.logs.back().unwrap().message,
        "Queued: run_command [position 1] (CPU: 10.0%, Mem: 12.5%)"
    );

    // The first command completes; the queued one is drained, FIFO.
    let drained = on_tool_complete(&mut state, "run_command", false, &calm_metrics(), 5_000);
    let task: QueuedTask = drained.expect("the queued task should drain");
    assert_eq!(task.request_id, "req-2");
    assert_eq!(task.session_id, "session-1");
    assert_eq!(task.queued_at_ms, 2_000);
    assert_eq!(
        state.logs.back().unwrap().message,
        "Dequeued: run_command (waited 3000ms)"
    );
    assert_eq!(state.get_queue_length(), 0);
    assert_eq!(state.get_active_commands(), 0);
    assert_eq!(state.get_status(), ConnectionStatus::Connected);

    // The drained task begins and its response carries the queue marks.
    begin_task(&mut state, task.tool.as_str());
    assert_eq!(state.get_active_commands(), 1);
    let result = ToolResult { result: "done".to_string(), metrics: None, error: None };
    let frame = make_tool_response(
        task.request_id.as_str(),
        task.session_id.as_str(),
        &result,
        true,
    );
    assert!(frame.contains("\"requestId\":\"req-2\""));
    assert!(frame.contains("\"queued\":true,\"queuePosition\":0"));
    let after = on_tool_complete(&mut state, "run_command", false, &calm_metrics(), 9_000);
    assert!(after.is_none());
    assert_eq!(state.get_active_commands(), 0);
}

#[test]
fn test_non_command_tools_bypass_queue() {
    let mut state = AppState::new();
    state.settings.max_concurrent_commands = 1;
    state.is_connected = true;

    let running = on_tool_request(&mut state, &run_command_request("req-1"), &calm_metrics(), 0);
    assert!(matches!(running, RequestDecision::ExecuteNow));
    assert_eq!(state.get_active_commands(), 1);

    // A read_file submitted mid-execution starts at once, no queue notice.
    let read_req = ToolRequest {
        request_id: "req-2".to_string(),
        session_id: "session-1".to_string(),
        tool: "read_file".to_string(),
        input: ToolInput {
            path: Some("hello.txt".to_string()),
            content: None,
            pattern: None,
            command: None,
        },
        cwd: Some("/tmp".to_string()),
    };
    let decision = on_tool_request(&mut state, &read_req, &calm_metrics(), 0);
    assert!(matches!(decision, RequestDecision::ExecuteNow));
    assert_eq!(state.get_queue_length(), 0);
    assert_eq!(state.get_active_commands(), 2);
}

#[test]
fn test_overload_queues_run_command() {
    let mut state = AppState::new();
    state.settings.max_concurrent_commands = 5;
    let decision = on_tool_request(
        &mut state,
        &run_command_request("req-1"),
        &overloaded_metrics(),
        0,
    );
    match decision {
        RequestDecision::Queued { position, reason } => {
            assert_eq!(position, 1);
            assert_eq!(reason, "System load high (CPU: 90.0%, Mem: 50.0%)");
        }
        _ => panic!("expected the overload to queue the command"),
    }
    // No drain while the overload lasts.
    state.increment_active_commands();
    let drained = on_tool_complete(&mut state, "run_command", false, &overloaded_metrics(), 0);
    assert!(drained.is_none());
    assert_eq!(state.get_queue_length(), 1);
    // The overload clears: the next completion drains it.
    state.increment_active_commands();
    let drained = on_tool_complete(&mut state, "run_command", false, &calm_metrics(), 0);
    assert!(drained.is_some());
    assert_eq!(state.get_queue_length(), 0);
}

#[test]
fn test_active_never_exceeds_ceiling_for_run_command() {
    let mut state = AppState::new();
    state.settings.max_concurrent_commands = 2;
    let max = state.settings.max_concurrent_commands;
    for i in 0..6 {
        let id = format!("req-{i}");
        let _ = on_tool_request(&mut state, &run_command_request(id.as_str()), &calm_metrics(), 0);
        assert!(state.get_active_commands() <= max);
    }
    assert_eq!(state.get_active_commands(), 2);
    assert_eq!(state.get_queue_length(), 4);
}

#[test]
fn test_queue_drains_to_empty() {
    let mut state = AppState::new();
    state.settings.max_concurrent_commands = 1;
    let _ = on_tool_request(&mut state, &run_command_request("req-0"), &calm_metrics(), 0);
    for i in 1..5 {
        let id = format!("req-{i}");
        let _ = on_tool_request(&mut state, &run_command_request(id.as_str()), &calm_metrics(), 0);
    }
    assert_eq!(state.get_queue_length(), 4);
    // No new requests arrive; each completion drains exactly one task.
    let mut next = on_tool_complete(&mut state, "run_command", false, &calm_metrics(), 0);
    let mut completions = 1;
    while let Some(task) = next {
        begin_task(&mut state, task.tool.as_str());
        next = on_tool_complete(&mut state, "run_command", false, &calm_metrics(), 0);
        completions += 1;
    }
    assert_eq!(state.get_queue_length(), 0);
    assert_eq!(state.get_active_commands(), 0);
    assert_eq!(completions, 5);
}

#[test]
fn test_completion_logs_and_status_revert() {
    let mut state = AppState::new();
    state.is_connected = true;
    begin_task(&mut state, "read_file");
    assert_eq!(state.get_status(), ConnectionStatus::Working);
    let drained = on_tool_complete(&mut state, "read_file", true, &calm_metrics(), 0);
    assert!(drained.is_none());
    assert_eq!(state.get_status(), ConnectionStatus::Connected);
    let last = state.logs.back().unwrap();
    assert!(matches!(last.level, LogLevel::Error));
    assert_eq!(last.message, "Failed: read_file [0 active, 0 queued]");
}

#[test]
fn test_log_ring_keeps_last_500() {
    let mut state = AppState::new();
    for i in 0..505 {
        state.log_info(format!("entry {i}"));
    }
    assert_eq!(state.logs.len(), 500);
    assert_eq!(state.logs.front().unwrap().message, "entry 5");
    assert_eq!(state.logs.back().unwrap().message, "entry 504");
}

#[test]
fn test_decrement_saturates_at_zero() {
    let mut state = AppState::new();
    state.decrement_active_commands();
    assert_eq!(state.get_active_commands(), 0);
    state.increment_active_commands();
    state.decrement_active_commands();
    state.decrement_active_commands();
    assert_eq!(state.get_active_commands(), 0);
}

#[test]
fn test_queue_is_fifo() {
    let mut state = AppState::new();
    for i in 0..3 {
        let task = QueuedTask {
            request_id: format!("req-{i}"),
            session_id: "s".to_string(),
            tool: "run_command".to_string(),
            input: ToolInput { path: None, content: None, pattern: None, command: None },
            cwd: "/tmp".to_string(),
            queued_at_ms: i,
        };
        let position = state.enqueue_task(task);
        assert_eq!(position, (i + 1) as usize);
    }
    assert_eq!(state.dequeue_task().unwrap().request_id, "req-0");
    assert_eq!(state.dequeue_task().unwrap().request_id, "req-1");
    assert_eq!(state.dequeue_task().unwrap().request_id, "req-2");
    assert!(state.dequeue_task().is_none());
}
