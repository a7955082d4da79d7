use agent_core::clock::format_clock;
use agent_core::icon::{generate_icon, status_color, status_tooltip};
use agent_core::metrics::{
    hostname_or_unknown, is_system_overloaded, metrics_from_samples, SystemInfo,
};
use agent_core::protocol::make_register;
use agent_core::state::{AgentSettings, AppState, ConnectionStatus, LogLevel, SystemMetrics};
use agent_core::strutil::{i64_to_string, tenths_to_string, u64_to_string};
use agent_core::supervisor::{
    disconnect, on_connect_attempt, on_connect_failed, on_connected, on_disconnected,
    on_registered, plan_reconnect, PING_INTERVAL_MS, RECONNECT_DELAY_MS, STATUS_INTERVAL_MS,
};

#[test]
fn test_intervals() {
    assert_eq!(STATUS_INTERVAL_MS, 5000);
    assert_eq!(PING_INTERVAL_MS, 30000);
    assert_eq!(RECONNECT_DELAY_MS, 5000);
}

#[test]
fn test_reconnect_cycle_replaces_agent_id() {
    let mut state = AppState::new();
    assert_eq!(state.get_status(), ConnectionStatus::Disconnected);

    // First attempt succeeds and registers.
    on_connect_attempt(&mut state);
    assert_eq!(state.get_status(), ConnectionStatus::Connecting);
    on_connected(&mut state);
    assert_eq!(state.get_status(), ConnectionStatus::Connected);
    assert!(state.is_connected);
    let info = SystemInfo {
        cpus: 4,
        total_memory_mb: 8192,
        hostname: "host".to_string(),
        platform: "linux".to_string(),
    };
    on_registered(&mut state, "agent-one".to_string(), &info);
    assert_eq!(state.agent_id.as_deref(), Some("agent-one"));
    // Registration appends the assignment and then the host summary.
    let n = state.logs.len();
    assert_eq!(state.logs[n - 2].message, "Registered as agent: agent-one");
    assert!(matches!(state.logs[n - 2].level, LogLevel::Success));
    assert_eq!(state.logs[n - 1].message, "System: 4 CPUs, 8192MB RAM");
    assert!(matches!(state.logs[n - 1].level, LogLevel::Info));

    // The server closes the transport while idle: a warning is logged,
    // and after the 5-second pause a fresh registration is sent.
    on_disconnected(&mut state);
    assert!(!state.is_connected);
    assert_eq!(state.get_status(), ConnectionStatus::Disconnected);
    {
        let last = state.logs.back().unwrap();
        assert!(matches!(last.level, LogLevel::Warning));
        assert_eq!(last.message, "Disconnected from server");
    }
    let retry = plan_reconnect(&mut state);
    assert!(retry);
    assert_eq!(
        state.logs.back().unwrap().message,
        "Reconnecting in 5 seconds..."
    );

    on_connect_attempt(&mut state);
    on_connected(&mut state);
    let fresh_registration = make_register("/home/u", "linux", "0.1.0", &info);
    assert!(fresh_registration.starts_with("{\"type\":\"agent_register\""));
    on_registered(&mut state, "agent-two".to_string(), &info);
    assert_eq!(state.agent_id.as_deref(), Some("agent-two"));
}

#[test]
fn test_no_reconnect_when_auto_connect_off() {
    let mut state = AppState::new();
    state.settings.auto_connect_on_launch = false;
    let logs_before = state.logs.len();
    let retry = plan_reconnect(&mut state);
    assert!(!retry);
    assert_eq!(state.logs.len(), logs_before);
}

#[test]
fn test_connect_failed_logs_error() {
    let mut state = AppState::new();
    on_connect_failed(&mut state, "connection refused");
    assert_eq!(state.get_status(), ConnectionStatus::Disconnected);
    let last = state.logs.back().unwrap();
    assert!(matches!(last.level, LogLevel::Error));
    assert_eq!(last.message, "Connection failed: connection refused");
}

#[test]
fn test_disconnect_clears_flags() {
    let mut state = AppState::new();
    on_connected(&mut state);
    disconnect(&mut state);
    assert!(!state.is_connected);
    assert_eq!(state.get_status(), ConnectionStatus::Disconnected);
}

#[test]
fn test_default_settings() {
    let settings = AgentSettings::default();
    assert_eq!(settings.max_concurrent_commands, 5);
    assert!(settings.auto_start_on_login);
    assert!(settings.auto_connect_on_launch);
    assert!(settings.server_url.starts_with("wss://"));
}

#[test]
fn test_metrics_from_samples_exact() {
    let m = metrics_from_samples(375, 512 * 1024 * 1024, 1024 * 1024 * 1024, 2, 3);
    assert_eq!(m.cpu_percent_tenths, 375);
    assert_eq!(m.memory_used_mb, 512);
    assert_eq!(m.memory_total_mb, 1024);
    assert_eq!(m.memory_percent_tenths, 500);
    assert_eq!(m.active_commands, 2);
    assert_eq!(m.queued_tasks, 3);

    let empty = metrics_from_samples(0, 123, 0, 0, 0);
    assert_eq!(empty.memory_percent_tenths, 0);
}

#[test]
fn test_overload_thresholds() {
    let mut m = SystemMetrics {
        cpu_percent_tenths: 800,
        memory_used_mb: 0,
        memory_total_mb: 0,
        memory_percent_tenths: 850,
        active_commands: 0,
        queued_tasks: 0,
    };
    assert!(!is_system_overloaded(&m));
    m.cpu_percent_tenths = 801;
    assert!(is_system_overloaded(&m));
    m.cpu_percent_tenths = 0;
    m.memory_percent_tenths = 851;
    assert!(is_system_overloaded(&m));
}

#[test]
fn test_hostname_fallback() {
    assert_eq!(hostname_or_unknown(None), "unknown");
    assert_eq!(hostname_or_unknown(Some("box".to_string())), "box");
}

#[test]
fn test_clock_formatting() {
    assert_eq!(format_clock(0), "00:00:00");
    assert_eq!(format_clock(45296), "12:34:56");
    assert_eq!(format_clock(86399), "23:59:59");
}

#[test]
fn test_number_formatting() {
    assert_eq!(u64_to_string(0), "0");
    assert_eq!(u64_to_string(120), "120");
    assert_eq!(u64_to_string(18446744073709551615), "18446744073709551615");
    assert_eq!(i64_to_string(-1), "-1");
    assert_eq!(i64_to_string(-9223372036854775808), "-9223372036854775808");
    assert_eq!(tenths_to_string(0), "0.0");
    assert_eq!(tenths_to_string(1000), "100.0");
    assert_eq!(tenths_to_string(375), "37.5");
}

#[test]
fn test_icon_pixels() {
    let rgba = generate_icon(34, 197, 94);
    assert_eq!(rgba.len(), 1024);
    // Centre pixel (8, 8) is solid.
    let centre = 4 * (8 * 16 + 8);
    assert_eq!(&rgba[centre..centre + 4], &[34, 197, 94, 255]);
    // Corner pixel is transparent.
    assert_eq!(&rgba[0..4], &[0, 0, 0, 0]);
}

#[test]
fn test_status_colors_and_tooltips() {
    assert_eq!(status_color(ConnectionStatus::Connected), (34, 197, 94));
    assert_eq!(status_color(ConnectionStatus::Working), (234, 179, 8));
    assert_eq!(status_color(ConnectionStatus::Disconnected), (239, 68, 68));
    assert_eq!(status_tooltip(ConnectionStatus::Connected), "Vibecode Agent - Connected");
    assert_eq!(status_tooltip(ConnectionStatus::Paused), "Vibecode Agent - Paused");
}
