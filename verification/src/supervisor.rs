//! The connection lifecycle: the state transitions the supervisor loop
//! performs around each attempt, and the reconnect decision.
//!
//! The transport itself is driven outside the library; each transition
//! here records what one observation (opened, failed, closed, registered)
//! does to the shared state.

use vstd::prelude::*;
use crate::metrics::{host_summary, spec_host_summary, SystemInfo};
use crate::state::{AppState, ConnectionStatus, LogLevel};
use crate::strutil::{spec_dec, u64_to_string};

verus! {

/// Milliseconds between telemetry frames.
pub const STATUS_INTERVAL_MS: u64 = 5000;

/// Milliseconds between keepalive pings.
pub const PING_INTERVAL_MS: u64 = 30000;

/// Milliseconds the supervisor sleeps before reopening the transport.
pub const RECONNECT_DELAY_MS: u64 = 5000;

pub open spec fn spec_msg_connecting(url: Seq<char>) -> Seq<char> {
    "Connecting to "@ + url + "..."@
}

pub open spec fn spec_msg_connect_failed(err: Seq<char>) -> Seq<char> {
    "Connection failed: "@ + err
}

pub open spec fn spec_msg_registered(agent_id: Seq<char>) -> Seq<char> {
    "Registered as agent: "@ + agent_id
}

pub open spec fn spec_msg_reconnecting(delay_s: int) -> Seq<char> {
    "Reconnecting in "@ + spec_dec(delay_s) + " seconds..."@
}

/// A connection attempt begins: status `Connecting`, and the attempt is
/// logged with the server URL.
pub fn on_connect_attempt(state: &mut AppState)
    requires
        old(state).wf(),
    ensures
        final(state).wf(),
        final(state).status == ConnectionStatus::Connecting,
        final(state).task_queue@ == old(state).task_queue@,
        final(state).active_commands == old(state).active_commands,
        final(state).settings == old(state).settings,
        final(state).agent_id == old(state).agent_id,
        final(state).is_connected == old(state).is_connected,
        final(state).logs@.last().level == LogLevel::Info,
        final(state).logs@.last().message@ == spec_msg_connecting(
            old(state).settings.server_url@,
        ),
{
    state.set_status(ConnectionStatus::Connecting);
    let mut msg = String::from_str("Connecting to ");
    msg.append(state.settings.server_url.as_str());
    msg.append("...");
    proof {
        assert(msg@ =~= spec_msg_connecting(state.settings.server_url@));
    }
    state.log_info(msg);
}

/// The transport opened: status `Connected`, the connected flag set, and
/// the success logged.
pub fn on_connected(state: &mut AppState)
    requires
        old(state).wf(),
    ensures
        final(state).wf(),
        final(state).status == ConnectionStatus::Connected,
        final(state).is_connected,
        final(state).task_queue@ == old(state).task_queue@,
        final(state).active_commands == old(state).active_commands,
        final(state).settings == old(state).settings,
        final(state).agent_id == old(state).agent_id,
        final(state).logs@.last().level == LogLevel::Success,
        final(state).logs@.last().message@ == "Connected to server"@,
{
    state.set_status(ConnectionStatus::Connected);
    state.is_connected = true;
    state.log_success(String::from_str("Connected to server"));
}

/// The transport could not be opened: status `Disconnected`, the failure
/// logged with the transport's own words.
pub fn on_connect_failed(state: &mut AppState, err: &str)
    requires
        old(state).wf(),
    ensures
        final(state).wf(),
        final(state).status == ConnectionStatus::Disconnected,
        final(state).is_connected == old(state).is_connected,
        final(state).task_queue@ == old(state).task_queue@,
        final(state).active_commands == old(state).active_commands,
        final(state).settings == old(state).settings,
        final(state).agent_id == old(state).agent_id,
        final(state).logs@.last().level == LogLevel::Error,
        final(state).logs@.last().message@ == spec_msg_connect_failed(err@),
{
    state.set_status(ConnectionStatus::Disconnected);
    let mut msg = String::from_str("Connection failed: ");
    msg.append(err);
    state.log_error(msg);
}

/// The engine returned: the connected flag cleared, status
/// `Disconnected`, and the closure logged as a warning.
pub fn on_disconnected(state: &mut AppState)
    requires
        old(state).wf(),
    ensures
        final(state).wf(),
        final(state).status == ConnectionStatus::Disconnected,
        !final(state).is_connected,
        final(state).task_queue@ == old(state).task_queue@,
        final(state).active_commands == old(state).active_commands,
        final(state).settings == old(state).settings,
        final(state).agent_id == old(state).agent_id,
        final(state).logs@.last().level == LogLevel::Warning,
        final(state).logs@.last().message@ == "Disconnected from server"@,
{
    state.is_connected = false;
    state.set_status(ConnectionStatus::Disconnected);
    state.log_warning(String::from_str("Disconnected from server"));
}

/// Whether the supervisor retries: yes exactly when auto-connect is on,
/// in which case the pending delay is logged and the caller sleeps
/// `RECONNECT_DELAY_MS` before the next attempt.
pub fn plan_reconnect(state: &mut AppState) -> (retry: bool)
    requires
        old(state).wf(),
    ensures
        final(state).wf(),
        retry == old(state).settings.auto_connect_on_launch,
        final(state).status == old(state).status,
        final(state).is_connected == old(state).is_connected,
        final(state).task_queue@ == old(state).task_queue@,
        final(state).active_commands == old(state).active_commands,
        final(state).settings == old(state).settings,
        final(state).agent_id == old(state).agent_id,
        retry ==> final(state).logs@.last().level == LogLevel::Info
            && final(state).logs@.last().message@ == spec_msg_reconnecting(
            RECONNECT_DELAY_MS as int / 1000,
        ),
        !retry ==> final(state).logs@ == old(state).logs@,
{
    if state.settings.auto_connect_on_launch {
        let mut msg = String::from_str("Reconnecting in ");
        let secs = u64_to_string(RECONNECT_DELAY_MS / 1000);
        msg.append(secs.as_str());
        msg.append(" seconds...");
        proof {
            assert(msg@ =~= spec_msg_reconnecting(RECONNECT_DELAY_MS as int / 1000));
        }
        state.log_info(msg);
        true
    } else {
        false
    }
}

/// A registration acknowledgement arrived: the assigned id replaces any
/// earlier one, the assignment is logged, and the host summary is logged
/// after it.
pub fn on_registered(state: &mut AppState, agent_id: String, info: &SystemInfo)
    requires
        old(state).wf(),
    ensures
        final(state).wf(),
        final(state).agent_id == Some(agent_id),
        final(state).status == old(state).status,
        final(state).is_connected == old(state).is_connected,
        final(state).task_queue@ == old(state).task_queue@,
        final(state).active_commands == old(state).active_commands,
        final(state).settings == old(state).settings,
        final(state).logs@.len() >= 2,
        final(state).logs@.last().level == LogLevel::Info,
        final(state).logs@.last().message@ == spec_host_summary(
            info.cpus as int,
            info.total_memory_mb as int,
        ),
        final(state).logs@[final(state).logs@.len() - 2].level == LogLevel::Success,
        final(state).logs@[final(state).logs@.len() - 2].message@ == spec_msg_registered(
            agent_id@,
        ),
{
    let mut msg = String::from_str("Registered as agent: ");
    msg.append(agent_id.as_str());
    state.agent_id = Some(agent_id);
    state.log_success(msg);
    state.log_info(host_summary(info));
}

/// A user disconnect: the connected flag cleared and the status set, so
/// that the engine's next read or write unwinds naturally.
pub fn disconnect(state: &mut AppState)
    ensures
        *final(state) == (AppState {
            is_connected: false,
            status: ConnectionStatus::Disconnected,
            ..*old(state)
        }),
{
    state.is_connected = false;
    state.set_status(ConnectionStatus::Disconnected);
}

} // verus!
