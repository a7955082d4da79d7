//! The agent's shared state: connection status, settings, metrics, the
//! bounded activity log, the active-command counter and the FIFO task queue.

use vstd::prelude::*;
use std::collections::VecDeque;
use crate::clock::{current_clock_string, is_clock_string};
use crate::tools::ToolInput;

verus! {

/// Most log entries the activity log retains; the oldest entry is dropped
/// once the log grows past this.
pub const LOG_CAPACITY: usize = 500;

#[derive(Clone, Copy, Debug, PartialEq, Eq, Structural)]
pub enum ConnectionStatus {
    Connected,
    Disconnected,
    Connecting,
    Working,
    Paused,
}

impl Default for ConnectionStatus {
    fn default() -> (r: Self)
        ensures
            r == ConnectionStatus::Disconnected,
    {
        ConnectionStatus::Disconnected
    }
}

#[derive(Clone, Copy, Debug, PartialEq, Eq, Structural)]
pub enum LogLevel {
    Info,
    Success,
    Warning,
    Error,
}

#[derive(Clone, Debug)]
pub struct LogEntry {
    pub timestamp: String,
    pub level: LogLevel,
    pub message: String,
}

/// Persisted agent configuration.
#[derive(Clone, Debug)]
pub struct AgentSettings {
    pub server_url: String,
    pub working_directory: String,
    pub max_concurrent_commands: u32,
    pub auto_start_on_login: bool,
    pub auto_connect_on_launch: bool,
}

/// Relies on dirs::home_dir: the user's home directory, if the platform
/// reports one. The value depends on the machine, so nothing is promised.
#[verifier::external_body]
fn home_dir_string() -> Option<String> {
    dirs::home_dir().map(|p| p.to_string_lossy().to_string())
}

/// The default working directory for a reported home directory: the home
/// itself, or the current directory when the platform reports none.
pub fn working_directory_or_default(home: Option<String>) -> (r: String)
    ensures
        match home {
            Some(h) => r == h,
            None => r@ == "."@,
        },
{
    match home {
        Some(h) => h,
        None => String::from_str("."),
    }
}

impl Default for AgentSettings {
    /// Default settings: five concurrent commands, both startup switches on,
    /// and the user's home directory (falling back to the current one) as
    /// the working directory.
    fn default() -> (r: Self)
        ensures
            r.server_url@ == "wss://vibecode.ai.devintensive.com"@,
            r.max_concurrent_commands == 5,
            r.auto_start_on_login,
            r.auto_connect_on_launch,
    {
        let working_directory = working_directory_or_default(home_dir_string());
        AgentSettings {
            server_url: String::from_str("wss://vibecode.ai.devintensive.com"),
            working_directory,
            max_concurrent_commands: 5,
            auto_start_on_login: true,
            auto_connect_on_launch: true,
        }
    }
}

/// A sampled host snapshot. Percentages are held in tenths of a percent,
/// so 37.5% is 375.
#[derive(Clone, Copy, Debug, PartialEq, Eq, Structural)]
pub struct SystemMetrics {
    pub cpu_percent_tenths: u64,
    pub memory_used_mb: u64,
    pub memory_total_mb: u64,
    pub memory_percent_tenths: u64,
    pub active_commands: u32,
    pub queued_tasks: u32,
}

impl Default for SystemMetrics {
    fn default() -> (r: Self)
        ensures
            r == (SystemMetrics {
                cpu_percent_tenths: 0u64,
                memory_used_mb: 0u64,
                memory_total_mb: 0u64,
                memory_percent_tenths: 0u64,
                active_commands: 0u32,
                queued_tasks: 0u32,
            }),
    {
        SystemMetrics {
            cpu_percent_tenths: 0,
            memory_used_mb: 0,
            memory_total_mb: 0,
            memory_percent_tenths: 0,
            active_commands: 0,
            queued_tasks: 0,
        }
    }
}

/// Per-command measurements carried on a tool response. The processor and
/// memory figures are reserved and stay zero.
#[derive(Clone, Copy, Debug, PartialEq, Eq, Structural)]
pub struct ProcessMetrics {
    pub cpu_percent: u64,
    pub memory_mb: u64,
    pub duration_ms: u64,
}

/// A run_command request waiting for a free slot.
#[derive(Clone, Debug)]
pub struct QueuedTask {
    pub request_id: String,
    pub session_id: String,
    pub tool: String,
    pub input: ToolInput,
    pub cwd: String,
    pub queued_at_ms: i64,
}

/// Application state shared across the agent's tasks.
#[derive(Debug)]
pub struct AppState {
    pub status: ConnectionStatus,
    pub settings: AgentSettings,
    pub metrics: SystemMetrics,
    pub logs: VecDeque<LogEntry>,
    pub active_commands: u32,
    pub task_queue: VecDeque<QueuedTask>,
    pub agent_id: Option<String>,
    pub is_connected: bool,
}

impl AppState {
    /// The log ring never holds more than `LOG_CAPACITY` entries.
    pub open spec fn wf(self) -> bool {
        self.logs@.len() <= LOG_CAPACITY
    }

    /// Everything but the log ring agrees between the two states.
    pub open spec fn same_but_logs(pre: Self, post: Self) -> bool {
        &&& post.status == pre.status
        &&& post.settings == pre.settings
        &&& post.metrics == pre.metrics
        &&& post.active_commands == pre.active_commands
        &&& post.task_queue@ == pre.task_queue@
        &&& post.agent_id == pre.agent_id
        &&& post.is_connected == pre.is_connected
    }

    /// What one `add_log` call leaves behind: the entry appended, and the
    /// oldest entry dropped if the ring was full.
    pub open spec fn log_appended(pre: Self, post: Self, level: LogLevel, message: Seq<char>) -> bool {
        &&& post.logs@.len() ==
            if pre.logs@.len() < LOG_CAPACITY { pre.logs@.len() + 1int } else { LOG_CAPACITY as int }
        &&& post.logs@.last().level == level
        &&& post.logs@.last().message@ == message
        &&& is_clock_string(post.logs@.last().timestamp@)
        &&& post.logs@ == (pre.logs@ + seq![post.logs@.last()]).skip(
            if pre.logs@.len() < LOG_CAPACITY { 0int } else { 1int },
        )
    }

    pub fn new() -> (s: Self)
        ensures
            s.wf(),
            s.status == ConnectionStatus::Disconnected,
            s.settings.server_url@ == "wss://vibecode.ai.devintensive.com"@,
            s.settings.max_concurrent_commands == 5,
            s.settings.auto_start_on_login,
            s.settings.auto_connect_on_launch,
            s.metrics == (SystemMetrics {
                cpu_percent_tenths: 0u64,
                memory_used_mb: 0u64,
                memory_total_mb: 0u64,
                memory_percent_tenths: 0u64,
                active_commands: 0u32,
                queued_tasks: 0u32,
            }),
            s.logs@.len() == 0,
            s.active_commands == 0,
            s.task_queue@.len() == 0,
            s.agent_id is None,
            !s.is_connected,
    {
        AppState {
            status: ConnectionStatus::Disconnected,
            settings: AgentSettings::default(),
            metrics: SystemMetrics::default(),
            logs: VecDeque::new(),
            active_commands: 0,
            task_queue: VecDeque::new(),
            agent_id: None,
            is_connected: false,
        }
    }

    /// Appends a timestamped entry and trims the ring to `LOG_CAPACITY`.
    pub fn add_log(&mut self, level: LogLevel, message: String)
        requires
            old(self).wf(),
        ensures
            final(self).wf(),
            final(self).logs@.len() <= LOG_CAPACITY,
            Self::log_appended(*old(self), *final(self), level, message@),
            Self::same_but_logs(*old(self), *final(self)),
    {
        let timestamp = current_clock_string();
        let entry = LogEntry { timestamp, level, message };
        self.logs.push_back(entry);
        if self.logs.len() > LOG_CAPACITY {
            self.logs.pop_front();
        }
        proof {
            if old(self).logs@.len() < LOG_CAPACITY {
                assert(self.logs@ =~= (old(self).logs@ + seq![self.logs@.last()]).skip(0));
            } else {
                assert(self.logs@ =~= (old(self).logs@ + seq![self.logs@.last()]).skip(1));
            }
        }
    }

    pub fn log_info(&mut self, message: String)
        requires
            old(self).wf(),
        ensures
            final(self).wf(),
            Self::log_appended(*old(self), *final(self), LogLevel::Info, message@),
            Self::same_but_logs(*old(self), *final(self)),
    {
        self.add_log(LogLevel::Info, message);
    }

    pub fn log_success(&mut self, message: String)
        requires
            old(self).wf(),
        ensures
            final(self).wf(),
            Self::log_appended(*old(self), *final(self), LogLevel::Success, message@),
            Self::same_but_logs(*old(self), *final(self)),
    {
        self.add_log(LogLevel::Success, message);
    }

    pub fn log_warning(&mut self, message: String)
        requires
            old(self).wf(),
        ensures
            final(self).wf(),
            Self::log_appended(*old(self), *final(self), LogLevel::Warning, message@),
            Self::same_but_logs(*old(self), *final(self)),
    {
        self.add_log(LogLevel::Warning, message);
    }

    pub fn log_error(&mut self, message: String)
        requires
            old(self).wf(),
        ensures
            final(self).wf(),
            Self::log_appended(*old(self), *final(self), LogLevel::Error, message@),
            Self::same_but_logs(*old(self), *final(self)),
    {
        self.add_log(LogLevel::Error, message);
    }

    pub fn set_status(&mut self, status: ConnectionStatus)
        ensures
            *final(self) == (AppState { status, ..*old(self) }),
    {
        self.status = status;
    }

    pub fn get_status(&self) -> (r: ConnectionStatus)
        ensures
            r == self.status,
    {
        self.status
    }

    pub fn update_metrics(&mut self, metrics: SystemMetrics)
        ensures
            *final(self) == (AppState { metrics, ..*old(self) }),
    {
        self.metrics = metrics;
    }

    pub fn get_metrics(&self) -> (r: SystemMetrics)
        ensures
            r == self.metrics,
    {
        self.metrics
    }

    pub fn increment_active_commands(&mut self)
        requires
            old(self).active_commands < u32::MAX,
        ensures
            *final(self) == (AppState {
                active_commands: (old(self).active_commands + 1) as u32,
                ..*old(self)
            }),
    {
        self.active_commands = self.active_commands + 1;
    }

    /// Decrements the active count, saturating at zero.
    pub fn decrement_active_commands(&mut self)
        ensures
            *final(self) == (AppState {
                active_commands: if old(self).active_commands > 0 {
                    (old(self).active_commands - 1) as u32
                } else {
                    0u32
                },
                ..*old(self)
            }),
    {
        if self.active_commands > 0 {
            self.active_commands = self.active_commands - 1;
        }
    }

    pub fn get_active_commands(&self) -> (r: u32)
        ensures
            r == self.active_commands,
    {
        self.active_commands
    }

    /// Appends to the back of the queue and returns the new length, which
    /// is also the 1-based position of the task just queued.
    pub fn enqueue_task(&mut self, task: QueuedTask) -> (n: usize)
        ensures
            final(self).task_queue@ == old(self).task_queue@.push(task),
            n == final(self).task_queue@.len(),
            final(self).logs@ == old(self).logs@,
            final(self).status == old(self).status,
            final(self).settings == old(self).settings,
            final(self).metrics == old(self).metrics,
            final(self).active_commands == old(self).active_commands,
            final(self).agent_id == old(self).agent_id,
            final(self).is_connected == old(self).is_connected,
    {
        self.task_queue.push_back(task);
        self.task_queue.len()
    }

    /// Pops the queue head, if any: strictly first in, first out.
    pub fn dequeue_task(&mut self) -> (t: Option<QueuedTask>)
        ensures
            match t {
                Some(task) => {
                    &&& old(self).task_queue@.len() > 0
                    &&& task == old(self).task_queue@[0]
                    &&& final(self).task_queue@ == old(self).task_queue@.skip(1)
                },
                None => {
                    &&& old(self).task_queue@.len() == 0
                    &&& final(self).task_queue@ == old(self).task_queue@
                },
            },
            final(self).logs@ == old(self).logs@,
            final(self).status == old(self).status,
            final(self).settings == old(self).settings,
            final(self).metrics == old(self).metrics,
            final(self).active_commands == old(self).active_commands,
            final(self).agent_id == old(self).agent_id,
            final(self).is_connected == old(self).is_connected,
    {
        let t = self.task_queue.pop_front();
        proof {
            if old(self).task_queue@.len() > 0 {
                assert(self.task_queue@ =~= old(self).task_queue@.skip(1));
            }
        }
        t
    }

    pub fn get_queue_length(&self) -> (n: usize)
        ensures
            n == self.task_queue@.len(),
    {
        self.task_queue.len()
    }

    /// Replaces the settings and logs the update. The new values take
    /// effect on the next reconnect; persisting them is the caller's work.
    pub fn apply_settings(&mut self, settings: AgentSettings)
        requires
            old(self).wf(),
        ensures
            final(self).wf(),
            final(self).settings == settings,
            final(self).status == old(self).status,
            final(self).metrics == old(self).metrics,
            final(self).active_commands == old(self).active_commands,
            final(self).task_queue@ == old(self).task_queue@,
            final(self).agent_id == old(self).agent_id,
            final(self).is_connected == old(self).is_connected,
            final(self).logs@.last().level == LogLevel::Info,
            final(self).logs@.last().message@ == "Settings updated"@,
    {
        self.settings = settings;
        self.log_info(String::from_str("Settings updated"));
    }

    /// An ordered copy of the log ring, oldest first.
    pub fn snapshot_logs(&self) -> (r: Vec<LogEntry>)
        ensures
            r@ == self.logs@,
    {
        let mut r: Vec<LogEntry> = Vec::new();
        let n = self.logs.len();
        let mut i: usize = 0;
        while i < n
            invariant
                n == self.logs@.len(),
                i <= n,
                r@ == self.logs@.take(i as int),
            decreases n - i,
        {
            let e = &self.logs[i];
            let copy = LogEntry {
                timestamp: e.timestamp.clone(),
                level: e.level,
                message: e.message.clone(),
            };
            r.push(copy);
            proof {
                assert(copy == self.logs@[i as int]);
                assert(r@ =~= self.logs@.take(i + 1));
            }
            i += 1;
        }
        proof {
            assert(self.logs@.take(n as int) =~= self.logs@);
        }
        r
    }
}

} // verus!
