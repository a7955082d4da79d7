use agent_core::metrics::SystemInfo;
use agent_core::protocol::{
    json_escape, json_string, make_register, make_status_event, make_status_update,
    make_tool_queued, make_tool_response,
};
use agent_core::state::{AppState, ConnectionStatus, LogLevel, ProcessMetrics, SystemMetrics};
use agent_core::tools::ToolResult;

#[test]
fn test_json_escape_specials() {
    assert_eq!(json_escape("plain"), "plain");
    assert_eq!(json_escape("a\"b"), "a\\\"b");
    assert_eq!(json_escape("back\\slash"), "back\\\\slash");
    assert_eq!(json_escape("line\nbreak"), "line\\nbreak");
    assert_eq!(json_escape("cr\rtab\t"), "cr\\rtab\\t");
    assert_eq!(json_escape("\u{0008}\u{000C}"), "\\b\\f");
    assert_eq!(json_escape("\u{0001}\u{001f}"), "\\u0001\\u001f");
    assert_eq!(json_escape("aé☃"), "aé☃");
}

#[test]
fn test_json_string_round_trips_through_serde() {
    let cases = ["", "plain", "with \"quotes\" and \\ slashes", "ctrl:\u{0002}\nend"];
    for case in cases {
        let literal = json_string(case);
        let parsed: serde_json::Value = serde_json::from_str(literal.as_str()).unwrap();
        assert_eq!(parsed.as_str().unwrap(), case);
    }
}

#[test]
fn test_status_update_frame() {
    let m = SystemMetrics {
        cpu_percent_tenths: 375,
        memory_used_mb: 2048,
        memory_total_mb: 8192,
        memory_percent_tenths: 250,
        active_commands: 2,
        queued_tasks: 1,
    };
    let frame = make_status_update(&m);
    assert_eq!(
        frame,
        "{\"type\":\"agent_status_update\",\"metrics\":{\"cpuPercent\":37.5,\
         \"memoryUsedMB\":2048,\"memoryTotalMB\":8192,\"memoryPercent\":25.0,\
         \"activeCommands\":2,\"queuedTasks\":1}}"
    );
    let parsed: serde_json::Value = serde_json::from_str(frame.as_str()).unwrap();
    assert_eq!(parsed["type"], "agent_status_update");
    assert_eq!(parsed["metrics"]["cpuPercent"], 37.5);
    assert_eq!(parsed["metrics"]["activeCommands"], 2);
}

#[test]
fn test_register_frame() {
    let info = SystemInfo {
        cpus: 8,
        total_memory_mb: 16384,
        hostname: "worker-1".to_string(),
        platform: "linux".to_string(),
    };
    let frame = make_register("/home/u", "linux", "0.1.0", &info);
    let parsed: serde_json::Value = serde_json::from_str(frame.as_str()).unwrap();
    assert_eq!(parsed["type"], "agent_register");
    assert_eq!(parsed["workingDir"], "/home/u");
    assert_eq!(parsed["platform"], "linux");
    assert_eq!(parsed["version"], "0.1.0");
    assert_eq!(parsed["systemInfo"]["cpus"], 8);
    assert_eq!(parsed["systemInfo"]["totalMemoryMb"], 16384);
    assert_eq!(parsed["systemInfo"]["hostname"], "worker-1");
}

#[test]
fn test_tool_queued_frame() {
    let frame = make_tool_queued("req-9", "sess-3", 4, "Max concurrent commands (5) reached");
    let parsed: serde_json::Value = serde_json::from_str(frame.as_str()).unwrap();
    assert_eq!(parsed["type"], "tool_queued");
    assert_eq!(parsed["requestId"], "req-9");
    assert_eq!(parsed["sessionId"], "sess-3");
    assert_eq!(parsed["queuePosition"], 4);
    assert_eq!(parsed["reason"], "Max concurrent commands (5) reached");
}

#[test]
fn test_tool_response_frame_minimal() {
    let result = ToolResult { result: "hi\n".to_string(), metrics: None, error: None };
    let frame = make_tool_response("req-1", "sess-1", &result, false);
    assert_eq!(
        frame,
        "{\"type\":\"tool_response\",\"requestId\":\"req-1\",\"sessionId\":\"sess-1\",\
         \"result\":\"hi\\n\"}"
    );
    let parsed: serde_json::Value = serde_json::from_str(frame.as_str()).unwrap();
    assert_eq!(parsed["requestId"], "req-1");
    assert_eq!(parsed["sessionId"], "sess-1");
    assert_eq!(parsed["result"], "hi\n");
    assert!(parsed.get("error").is_none());
    assert!(parsed.get("queued").is_none());
}

#[test]
fn test_tool_response_frame_full() {
    let result = ToolResult {
        result: "partial".to_string(),
        metrics: Some(ProcessMetrics { cpu_percent: 0, memory_mb: 0, duration_ms: 2123 }),
        error: Some("Exit code: 3".to_string()),
    };
    let frame = make_tool_response("req-2", "sess-1", &result, true);
    let parsed: serde_json::Value = serde_json::from_str(frame.as_str()).unwrap();
    assert_eq!(parsed["type"], "tool_response");
    assert_eq!(parsed["requestId"], "req-2");
    assert_eq!(parsed["error"], "Exit code: 3");
    assert_eq!(parsed["metrics"]["durationMs"], 2123);
    assert_eq!(parsed["metrics"]["cpuPercent"], 0);
    assert_eq!(parsed["queued"], true);
    assert_eq!(parsed["queuePosition"], 0);
}

#[test]
fn test_status_event_payload() {
    let mut state = AppState::new();
    state.add_log(LogLevel::Info, "first".to_string());
    state.add_log(LogLevel::Error, "second".to_string());
    let logs = state.snapshot_logs();
    let metrics = state.get_metrics();
    let payload = make_status_event(
        ConnectionStatus::Working,
        &metrics,
        &logs,
        &Some("agent-7".to_string()),
    );
    let parsed: serde_json::Value = serde_json::from_str(payload.as_str()).unwrap();
    assert_eq!(parsed["status"], "working");
    assert_eq!(parsed["agentId"], "agent-7");
    assert_eq!(parsed["logs"].as_array().unwrap().len(), 2);
    assert_eq!(parsed["logs"][0]["message"], "first");
    assert_eq!(parsed["logs"][1]["level"], "error");
    assert_eq!(parsed["metrics"]["queuedTasks"], 0);
    // Timestamps carry the clock format HH:MM:SS.
    let ts = parsed["logs"][0]["timestamp"].as_str().unwrap();
    assert_eq!(ts.len(), 8);
    assert_eq!(ts.as_bytes()[2], b':');
    assert_eq!(ts.as_bytes()[5], b':');

    let anonymous = make_status_event(ConnectionStatus::Disconnected, &metrics, &logs, &None);
    let parsed: serde_json::Value = serde_json::from_str(anonymous.as_str()).unwrap();
    assert!(parsed["agentId"].is_null());
    assert_eq!(parsed["status"], "disconnected");
}
