//! The wire format: JSON text frames, built and escaped by verified code.
//! Field names are camelCase; the `type` discriminator is snake_case.

use vstd::prelude::*;
use crate::metrics::SystemInfo;
use crate::state::{ConnectionStatus, LogEntry, LogLevel, ProcessMetrics, SystemMetrics};
use crate::strutil::{char_to_string, digit_char, spec_dec, spec_tenths, tenths_to_string,
    u64_to_string};
use crate::tools::ToolResult;

verus! {

/// A command for the single writer task: send one text frame, or close.
/// An empty frame stands for a keepalive ping.
#[derive(Clone, Debug)]
pub enum WsCommand {
    Send(String),
    Close,
}

/// Hexadecimal digit characters, lower case.
pub open spec fn hex_char(d: int) -> char {
    if d < 10 {
        digit_char(d)
    } else if d == 10 {
        'a'
    } else if d == 11 {
        'b'
    } else if d == 12 {
        'c'
    } else if d == 13 {
        'd'
    } else if d == 14 {
        'e'
    } else {
        'f'
    }
}

/// How one character is written inside a JSON string literal.
pub open spec fn spec_escape_char(c: char) -> Seq<char> {
    if c == '"' {
        seq!['\\', '"']
    } else if c == '\\' {
        seq!['\\', '\\']
    } else if c == '\n' {
        seq!['\\', 'n']
    } else if c == '\r' {
        seq!['\\', 'r']
    } else if c == '\t' {
        seq!['\\', 't']
    } else if c == '\u{0008}' {
        seq!['\\', 'b']
    } else if c == '\u{000C}' {
        seq!['\\', 'f']
    } else if (c as u32) < 0x20 {
        seq!['\\', 'u', '0', '0', hex_char((c as int) / 16), hex_char((c as int) % 16)]
    } else {
        seq![c]
    }
}

/// A character sequence escaped for a JSON string literal.
pub open spec fn spec_escape(s: Seq<char>) -> Seq<char>
    decreases s.len(),
{
    if s.len() == 0 {
        Seq::empty()
    } else {
        spec_escape(s.drop_last()) + spec_escape_char(s.last())
    }
}

/// A JSON string literal: the escaped text between double quotes.
pub open spec fn spec_json_string(s: Seq<char>) -> Seq<char> {
    seq!['"'] + spec_escape(s) + seq!['"']
}

fn hex_digit_str(d: u64) -> (r: &'static str)
    requires
        d < 16,
    ensures
        r@ == seq![hex_char(d as int)],
{
    proof {
        reveal_strlit("0");
        reveal_strlit("1");
        reveal_strlit("2");
        reveal_strlit("3");
        reveal_strlit("4");
        reveal_strlit("5");
        reveal_strlit("6");
        reveal_strlit("7");
        reveal_strlit("8");
        reveal_strlit("9");
        reveal_strlit("a");
        reveal_strlit("b");
        reveal_strlit("c");
        reveal_strlit("d");
        reveal_strlit("e");
        reveal_strlit("f");
    }
    let r = if d == 0 {
        "0"
    } else if d == 1 {
        "1"
    } else if d == 2 {
        "2"
    } else if d == 3 {
        "3"
    } else if d == 4 {
        "4"
    } else if d == 5 {
        "5"
    } else if d == 6 {
        "6"
    } else if d == 7 {
        "7"
    } else if d == 8 {
        "8"
    } else if d == 9 {
        "9"
    } else if d == 10 {
        "a"
    } else if d == 11 {
        "b"
    } else if d == 12 {
        "c"
    } else if d == 13 {
        "d"
    } else if d == 14 {
        "e"
    } else {
        "f"
    };
    proof {
        assert(r@ =~= seq![hex_char(d as int)]);
    }
    r
}

/// Escapes a text for use inside a JSON string literal.
pub fn json_escape(s: &str) -> (r: String)
    ensures
        r@ == spec_escape(s@),
{
    let n = s.unicode_len();
    let mut out = String::new();
    let mut i: usize = 0;
    proof {
        assert(s@.take(0) =~= Seq::<char>::empty());
    }
    while i < n
        invariant
            n == s@.len(),
            i <= n,
            out@ == spec_escape(s@.take(i as int)),
        decreases n - i,
    {
        let c = s.get_char(i);
        if c == '"' {
            out.append("\\\"");
            proof {
                reveal_strlit("\\\"");
                assert("\\\""@ =~= seq!['\\', '"']);
            }
        } else if c == '\\' {
            out.append("\\\\");
            proof {
                reveal_strlit("\\\\");
                assert("\\\\"@ =~= seq!['\\', '\\']);
            }
        } else if c == '\n' {
            out.append("\\n");
            proof {
                reveal_strlit("\\n");
                assert("\\n"@ =~= seq!['\\', 'n']);
            }
        } else if c == '\r' {
            out.append("\\r");
            proof {
                reveal_strlit("\\r");
                assert("\\r"@ =~= seq!['\\', 'r']);
            }
        } else if c == '\t' {
            out.append("\\t");
            proof {
                reveal_strlit("\\t");
                assert("\\t"@ =~= seq!['\\', 't']);
            }
        } else if c == '\u{0008}' {
            out.append("\\b");
            proof {
                reveal_strlit("\\b");
                assert("\\b"@ =~= seq!['\\', 'b']);
            }
        } else if c == '\u{000C}' {
            out.append("\\f");
            proof {
                reveal_strlit("\\f");
                assert("\\f"@ =~= seq!['\\', 'f']);
            }
        } else if (c as u32) < 0x20 {
            let code = c as u32;
            out.append("\\u00");
            let hi = hex_digit_str((code / 16) as u64);
            out.append(hi);
            let lo = hex_digit_str((code % 16) as u64);
            out.append(lo);
            proof {
                reveal_strlit("\\u00");
                assert("\\u00"@ =~= seq!['\\', 'u', '0', '0']);
            }
        } else {
            let one = char_to_string(c);
            out.append(one.as_str());
        }
        i += 1;
        proof {
            assert(s@.take(i as int).drop_last() =~= s@.take(i - 1));
            assert(s@.take(i as int).last() == s@[i - 1]);
            assert(out@ =~= spec_escape(s@.take(i as int)));
        }
    }
    proof {
        assert(s@.take(n as int) =~= s@);
    }
    out
}

/// Writes a JSON string literal: quotes around the escaped text.
pub fn json_string(s: &str) -> (r: String)
    ensures
        r@ == spec_json_string(s@),
{
    let mut out = String::from_str("\"");
    let body = json_escape(s);
    out.append(body.as_str());
    out.append("\"");
    proof {
        reveal_strlit("\"");
        assert("\""@ =~= seq!['"']);
        assert(out@ =~= spec_json_string(s@));
    }
    out
}

/// The metrics object as it stands on the wire.
pub open spec fn spec_metrics_json(m: SystemMetrics) -> Seq<char> {
    "{\"cpuPercent\":"@ + spec_tenths(m.cpu_percent_tenths as int) + ",\"memoryUsedMB\":"@
        + spec_dec(m.memory_used_mb as int) + ",\"memoryTotalMB\":"@ + spec_dec(
        m.memory_total_mb as int,
    ) + ",\"memoryPercent\":"@ + spec_tenths(m.memory_percent_tenths as int)
        + ",\"activeCommands\":"@ + spec_dec(m.active_commands as int) + ",\"queuedTasks\":"@
        + spec_dec(m.queued_tasks as int) + "}"@
}

fn metrics_json(m: &SystemMetrics) -> (r: String)
    ensures
        r@ == spec_metrics_json(*m),
{
    let mut s = String::from_str("{\"cpuPercent\":");
    let cpu = tenths_to_string(m.cpu_percent_tenths);
    s.append(cpu.as_str());
    s.append(",\"memoryUsedMB\":");
    let used = u64_to_string(m.memory_used_mb);
    s.append(used.as_str());
    s.append(",\"memoryTotalMB\":");
    let total = u64_to_string(m.memory_total_mb);
    s.append(total.as_str());
    s.append(",\"memoryPercent\":");
    let memp = tenths_to_string(m.memory_percent_tenths);
    s.append(memp.as_str());
    s.append(",\"activeCommands\":");
    let active = u64_to_string(m.active_commands as u64);
    s.append(active.as_str());
    s.append(",\"queuedTasks\":");
    let queued = u64_to_string(m.queued_tasks as u64);
    s.append(queued.as_str());
    s.append("}");
    proof {
        assert(s@ =~= spec_metrics_json(*m));
    }
    s
}

/// The telemetry frame.
pub open spec fn spec_status_update(m: SystemMetrics) -> Seq<char> {
    "{\"type\":\"agent_status_update\",\"metrics\":"@ + spec_metrics_json(m) + "}"@
}

/// Builds one `agent_status_update` frame for the given snapshot.
pub fn make_status_update(m: &SystemMetrics) -> (r: String)
    ensures
        r@ == spec_status_update(*m),
{
    let mut s = String::from_str("{\"type\":\"agent_status_update\",\"metrics\":");
    let body = metrics_json(m);
    s.append(body.as_str());
    s.append("}");
    proof {
        assert(s@ =~= spec_status_update(*m));
    }
    s
}

/// The static host facts as they stand inside the registration frame.
pub open spec fn spec_system_info_json(info: SystemInfo) -> Seq<char> {
    "{\"cpus\":"@ + spec_dec(info.cpus as int) + ",\"totalMemoryMb\":"@ + spec_dec(
        info.total_memory_mb as int,
    ) + ",\"hostname\":"@ + spec_json_string(info.hostname@) + ",\"platform\":"@
        + spec_json_string(info.platform@) + "}"@
}

/// The registration frame, the first message after the transport opens.
pub open spec fn spec_register(
    working_dir: Seq<char>,
    platform: Seq<char>,
    version: Seq<char>,
    info: SystemInfo,
) -> Seq<char> {
    "{\"type\":\"agent_register\",\"workingDir\":"@ + spec_json_string(working_dir)
        + ",\"platform\":"@ + spec_json_string(platform) + ",\"version\":"@ + spec_json_string(
        version,
    ) + ",\"systemInfo\":"@ + spec_system_info_json(info) + "}"@
}

/// Builds one `agent_register` frame.
pub fn make_register(working_dir: &str, platform: &str, version: &str, info: &SystemInfo) -> (r:
    String)
    ensures
        r@ == spec_register(working_dir@, platform@, version@, *info),
{
    let mut s = String::from_str("{\"type\":\"agent_register\",\"workingDir\":");
    let wd = json_string(working_dir);
    s.append(wd.as_str());
    s.append(",\"platform\":");
    let pl = json_string(platform);
    s.append(pl.as_str());
    s.append(",\"version\":");
    let v = json_string(version);
    s.append(v.as_str());
    s.append(",\"systemInfo\":");
    s.append("{\"cpus\":");
    let cpus = u64_to_string(info.cpus as u64);
    s.append(cpus.as_str());
    s.append(",\"totalMemoryMb\":");
    let mb = u64_to_string(info.total_memory_mb);
    s.append(mb.as_str());
    s.append(",\"hostname\":");
    let hn = json_string(info.hostname.as_str());
    s.append(hn.as_str());
    s.append(",\"platform\":");
    let ip = json_string(info.platform.as_str());
    s.append(ip.as_str());
    s.append("}");
    s.append("}");
    proof {
        assert(s@ =~= spec_register(working_dir@, platform@, version@, *info));
    }
    s
}

/// The queue notice frame.
pub open spec fn spec_tool_queued(
    request_id: Seq<char>,
    session_id: Seq<char>,
    position: int,
    reason: Seq<char>,
) -> Seq<char> {
    "{\"type\":\"tool_queued\",\"requestId\":"@ + spec_json_string(request_id)
        + ",\"sessionId\":"@ + spec_json_string(session_id) + ",\"queuePosition\":"@ + spec_dec(
        position,
    ) + ",\"reason\":"@ + spec_json_string(reason) + "}"@
}

/// Builds one `tool_queued` frame.
pub fn make_tool_queued(request_id: &str, session_id: &str, position: usize, reason: &str) -> (r:
    String)
    ensures
        r@ == spec_tool_queued(request_id@, session_id@, position as int, reason@),
{
    let mut s = String::from_str("{\"type\":\"tool_queued\",\"requestId\":");
    let rid = json_string(request_id);
    s.append(rid.as_str());
    s.append(",\"sessionId\":");
    let sid = json_string(session_id);
    s.append(sid.as_str());
    s.append(",\"queuePosition\":");
    let pos = u64_to_string(position as u64);
    s.append(pos.as_str());
    s.append(",\"reason\":");
    let re = json_string(reason);
    s.append(re.as_str());
    s.append("}");
    proof {
        assert(s@ =~= spec_tool_queued(request_id@, session_id@, position as int, reason@));
    }
    s
}

/// The per-command measurements as they stand on the wire.
pub open spec fn spec_process_metrics_json(m: ProcessMetrics) -> Seq<char> {
    "{\"cpuPercent\":"@ + spec_dec(m.cpu_percent as int) + ",\"memoryMB\":"@ + spec_dec(
        m.memory_mb as int,
    ) + ",\"durationMs\":"@ + spec_dec(m.duration_ms as int) + "}"@
}

/// The terminal frame of one tool request: ids, result, the error and
/// measurements when present, and the queue marks when the task had
/// waited in the queue.
pub open spec fn spec_tool_response(
    request_id: Seq<char>,
    session_id: Seq<char>,
    result: ToolResult,
    was_queued: bool,
) -> Seq<char> {
    "{\"type\":\"tool_response\",\"requestId\":"@ + spec_json_string(request_id)
        + ",\"sessionId\":"@ + spec_json_string(session_id) + ",\"result\":"@ + spec_json_string(
        result.result@,
    ) + (match result.error {
        Some(e) => ",\"error\":"@ + spec_json_string(e@),
        None => Seq::<char>::empty(),
    }) + (match result.metrics {
        Some(m) => ",\"metrics\":"@ + spec_process_metrics_json(m),
        None => Seq::<char>::empty(),
    }) + (if was_queued {
        ",\"queued\":true,\"queuePosition\":0"@
    } else {
        Seq::<char>::empty()
    }) + "}"@
}

/// Builds one `tool_response` frame: exactly one is owed per admitted
/// request, and it carries the request's own ids back.
#[verifier::rlimit(60)]
pub fn make_tool_response(
    request_id: &str,
    session_id: &str,
    result: &ToolResult,
    was_queued: bool,
) -> (r: String)
    ensures
        r@ == spec_tool_response(request_id@, session_id@, *result, was_queued),
{
    let mut s = String::from_str("{\"type\":\"tool_response\",\"requestId\":");
    let rid = json_string(request_id);
    s.append(rid.as_str());
    s.append(",\"sessionId\":");
    let sid = json_string(session_id);
    s.append(sid.as_str());
    s.append(",\"result\":");
    let res = json_string(result.result.as_str());
    s.append(res.as_str());
    match &result.error {
        Some(e) => {
            s.append(",\"error\":");
            let ee = json_string(e.as_str());
            s.append(ee.as_str());
        },
        None => {},
    }
    match &result.metrics {
        Some(m) => {
            s.append(",\"metrics\":");
            s.append("{\"cpuPercent\":");
            let c = u64_to_string(m.cpu_percent);
            s.append(c.as_str());
            s.append(",\"memoryMB\":");
            let mm = u64_to_string(m.memory_mb);
            s.append(mm.as_str());
            s.append(",\"durationMs\":");
            let d = u64_to_string(m.duration_ms);
            s.append(d.as_str());
            s.append("}");
        },
        None => {},
    }
    if was_queued {
        s.append(",\"queued\":true,\"queuePosition\":0");
    }
    s.append("}");
    proof {
        assert(s@ =~= spec_tool_response(request_id@, session_id@, *result, was_queued));
    }
    s
}


/// The wire name of a connection status, lower case.
pub open spec fn spec_status_name(s: ConnectionStatus) -> Seq<char> {
    match s {
        ConnectionStatus::Connected => "connected"@,
        ConnectionStatus::Disconnected => "disconnected"@,
        ConnectionStatus::Connecting => "connecting"@,
        ConnectionStatus::Working => "working"@,
        ConnectionStatus::Paused => "paused"@,
    }
}

/// Writes the wire name of a connection status.
pub fn status_name(s: ConnectionStatus) -> (r: &'static str)
    ensures
        r@ == spec_status_name(s),
{
    match s {
        ConnectionStatus::Connected => "connected",
        ConnectionStatus::Disconnected => "disconnected",
        ConnectionStatus::Connecting => "connecting",
        ConnectionStatus::Working => "working",
        ConnectionStatus::Paused => "paused",
    }
}

/// The wire name of a log level, lower case.
pub open spec fn spec_level_name(l: LogLevel) -> Seq<char> {
    match l {
        LogLevel::Info => "info"@,
        LogLevel::Success => "success"@,
        LogLevel::Warning => "warning"@,
        LogLevel::Error => "error"@,
    }
}

/// Writes the wire name of a log level.
pub fn level_name(l: LogLevel) -> (r: &'static str)
    ensures
        r@ == spec_level_name(l),
{
    match l {
        LogLevel::Info => "info",
        LogLevel::Success => "success",
        LogLevel::Warning => "warning",
        LogLevel::Error => "error",
    }
}

/// One log entry as the UI event carries it.
pub open spec fn spec_log_entry_json(e: LogEntry) -> Seq<char> {
    "{\"timestamp\":"@ + spec_json_string(e.timestamp@) + ",\"level\":"@ + spec_json_string(
        spec_level_name(e.level),
    ) + ",\"message\":"@ + spec_json_string(e.message@) + "}"@
}

fn log_entry_json(e: &LogEntry) -> (r: String)
    ensures
        r@ == spec_log_entry_json(*e),
{
    let mut s = String::from_str("{\"timestamp\":");
    let ts = json_string(e.timestamp.as_str());
    s.append(ts.as_str());
    s.append(",\"level\":");
    let lv = json_string(level_name(e.level));
    s.append(lv.as_str());
    s.append(",\"message\":");
    let msg = json_string(e.message.as_str());
    s.append(msg.as_str());
    s.append("}");
    proof {
        assert(s@ =~= spec_log_entry_json(*e));
    }
    s
}

/// The log ring as a JSON array, oldest first, comma-separated.
pub open spec fn spec_logs_array(logs: Seq<LogEntry>) -> Seq<char>
    decreases logs.len(),
{
    if logs.len() == 0 {
        Seq::empty()
    } else if logs.len() == 1 {
        spec_log_entry_json(logs[0])
    } else {
        spec_logs_array(logs.drop_last()) + seq![','] + spec_log_entry_json(logs.last())
    }
}

fn logs_array(logs: &Vec<LogEntry>) -> (r: String)
    ensures
        r@ == spec_logs_array(logs@),
{
    let mut s = String::new();
    let mut i: usize = 0;
    while i < logs.len()
        invariant
            i <= logs@.len(),
            s@ == spec_logs_array(logs@.take(i as int)),
        decreases logs@.len() - i,
    {
        if i > 0 {
            s.append(",");
            proof {
                reveal_strlit(",");
                assert(","@ =~= seq![',']);
            }
        }
        let entry = log_entry_json(&logs[i]);
        s.append(entry.as_str());
        i += 1;
        proof {
            assert(logs@.take(i as int).drop_last() =~= logs@.take(i - 1));
            assert(logs@.take(i as int).last() == logs@[i - 1]);
            if i == 1 {
                assert(s@ =~= spec_logs_array(logs@.take(1)));
            } else {
                assert(s@ =~= spec_logs_array(logs@.take(i as int)));
            }
        }
    }
    proof {
        assert(logs@.take(logs@.len() as int) =~= logs@);
    }
    s
}

/// The snapshot handed to status subscribers: status, metrics, the whole
/// log ring, and the agent id or null.
pub open spec fn spec_status_event(
    status: ConnectionStatus,
    metrics: SystemMetrics,
    logs: Seq<LogEntry>,
    agent_id: Option<String>,
) -> Seq<char> {
    "{\"status\":"@ + spec_json_string(spec_status_name(status)) + ",\"metrics\":"@
        + spec_metrics_json(metrics) + ",\"logs\":["@ + spec_logs_array(logs) + "],\"agentId\":"@
        + (match agent_id {
        Some(id) => spec_json_string(id@),
        None => "null"@,
    }) + "}"@
}

/// Builds the `status-update` event payload for the UI front-end.
pub fn make_status_event(
    status: ConnectionStatus,
    metrics: &SystemMetrics,
    logs: &Vec<LogEntry>,
    agent_id: &Option<String>,
) -> (r: String)
    ensures
        r@ == spec_status_event(status, *metrics, logs@, *agent_id),
{
    let mut s = String::from_str("{\"status\":");
    let st = json_string(status_name(status));
    s.append(st.as_str());
    s.append(",\"metrics\":");
    let m = metrics_json(metrics);
    s.append(m.as_str());
    s.append(",\"logs\":[");
    let ls = logs_array(logs);
    s.append(ls.as_str());
    s.append("],\"agentId\":");
    match agent_id {
        Some(id) => {
            let idj = json_string(id.as_str());
            s.append(idj.as_str());
        },
        None => {
            s.append("null");
        },
    }
    s.append("}");
    proof {
        assert(s@ =~= spec_status_event(status, *metrics, logs@, *agent_id));
    }
    s
}

} // verus!
