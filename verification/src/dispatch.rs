//! The task dispatcher: admits a tool request right away or queues it,
//! and, when a task completes, reverts the status and drains one queued
//! task if a slot has opened.
//!
//! The host sample and the clock reading enter as arguments, so every
//! decision here is a function of its inputs and is verified for all of
//! them; the caller performs the tool's outside work between `begin` and
//! `complete`.

use vstd::prelude::*;
use crate::metrics::{is_system_overloaded, spec_overloaded};
use crate::state::{AppState, ConnectionStatus, LogLevel, QueuedTask, SystemMetrics};
use crate::strutil::{clamped_diff, i64_to_string, spec_clamped_diff, spec_dec,
    spec_dec_signed, spec_tenths, str_eq, tenths_to_string, u64_to_string};
use crate::tools::ToolInput;

verus! {

/// A tool invocation as the server sent it: the correlation ids, the tool
/// name, its input fields, and an optional working directory.
#[derive(Clone, Debug)]
pub struct ToolRequest {
    pub request_id: String,
    pub session_id: String,
    pub tool: String,
    pub input: ToolInput,
    pub cwd: Option<String>,
}

/// What admission decided: run the tool now, or hold it in the queue and
/// tell the server at which position and why.
#[derive(Clone, Debug)]
pub enum RequestDecision {
    ExecuteNow,
    Queued { position: usize, reason: String },
}

pub open spec fn spec_msg_executing(tool: Seq<char>, active: int, queued: int) -> Seq<char> {
    "Executing: "@ + tool + " ["@ + spec_dec(active) + " active, "@ + spec_dec(queued)
        + " queued]"@
}

pub open spec fn spec_msg_completion(
    had_error: bool,
    tool: Seq<char>,
    active: int,
    queued: int,
) -> Seq<char> {
    (if had_error {
        "Failed: "@
    } else {
        "Completed: "@
    }) + tool + " ["@ + spec_dec(active) + " active, "@ + spec_dec(queued) + " queued]"@
}

pub open spec fn spec_msg_queued(tool: Seq<char>, position: int, cpu: int, mem: int) -> Seq<
    char,
> {
    "Queued: "@ + tool + " [position "@ + spec_dec(position) + "] (CPU: "@ + spec_tenths(cpu)
        + "%, Mem: "@ + spec_tenths(mem) + "%)"@
}

pub open spec fn spec_msg_dequeued(tool: Seq<char>, waited_ms: int) -> Seq<char> {
    "Dequeued: "@ + tool + " (waited "@ + spec_dec_signed(waited_ms) + "ms)"@
}

/// The queue notice when the concurrency ceiling is the cause.
pub open spec fn spec_reason_max(max: int) -> Seq<char> {
    "Max concurrent commands ("@ + spec_dec(max) + ") reached"@
}

/// The queue notice when host load is the cause.
pub open spec fn spec_reason_load(cpu: int, mem: int) -> Seq<char> {
    "System load high (CPU: "@ + spec_tenths(cpu) + "%, Mem: "@ + spec_tenths(mem) + "%)"@
}

fn executing_message(tool: &str, active: u32, queued: usize) -> (r: String)
    ensures
        r@ == spec_msg_executing(tool@, active as int, queued as int),
{
    let mut s = String::from_str("Executing: ");
    s.append(tool);
    s.append(" [");
    let a = u64_to_string(active as u64);
    s.append(a.as_str());
    s.append(" active, ");
    let q = u64_to_string(queued as u64);
    s.append(q.as_str());
    s.append(" queued]");
    proof {
        assert(s@ =~= spec_msg_executing(tool@, active as int, queued as int));
    }
    s
}

fn completion_message(had_error: bool, tool: &str, active: u32, queued: usize) -> (r: String)
    ensures
        r@ == spec_msg_completion(had_error, tool@, active as int, queued as int),
{
    let mut s = if had_error {
        String::from_str("Failed: ")
    } else {
        String::from_str("Completed: ")
    };
    s.append(tool);
    s.append(" [");
    let a = u64_to_string(active as u64);
    s.append(a.as_str());
    s.append(" active, ");
    let q = u64_to_string(queued as u64);
    s.append(q.as_str());
    s.append(" queued]");
    proof {
        assert(s@ =~= spec_msg_completion(had_error, tool@, active as int, queued as int));
    }
    s
}

fn queued_message(tool: &str, position: usize, cpu: u64, mem: u64) -> (r: String)
    ensures
        r@ == spec_msg_queued(tool@, position as int, cpu as int, mem as int),
{
    let mut s = String::from_str("Queued: ");
    s.append(tool);
    s.append(" [position ");
    let p = u64_to_string(position as u64);
    s.append(p.as_str());
    s.append("] (CPU: ");
    let c = tenths_to_string(cpu);
    s.append(c.as_str());
    s.append("%, Mem: ");
    let m = tenths_to_string(mem);
    s.append(m.as_str());
    s.append("%)");
    proof {
        assert(s@ =~= spec_msg_queued(tool@, position as int, cpu as int, mem as int));
    }
    s
}

fn dequeued_message(tool: &str, waited_ms: i64) -> (r: String)
    ensures
        r@ == spec_msg_dequeued(tool@, waited_ms as int),
{
    let mut s = String::from_str("Dequeued: ");
    s.append(tool);
    s.append(" (waited ");
    let w = i64_to_string(waited_ms);
    s.append(w.as_str());
    s.append("ms)");
    proof {
        assert(s@ =~= spec_msg_dequeued(tool@, waited_ms as int));
    }
    s
}

fn reason_max(max: u32) -> (r: String)
    ensures
        r@ == spec_reason_max(max as int),
{
    let mut s = String::from_str("Max concurrent commands (");
    let m = u64_to_string(max as u64);
    s.append(m.as_str());
    s.append(") reached");
    proof {
        assert(s@ =~= spec_reason_max(max as int));
    }
    s
}

fn reason_load(cpu: u64, mem: u64) -> (r: String)
    ensures
        r@ == spec_reason_load(cpu as int, mem as int),
{
    let mut s = String::from_str("System load high (CPU: ");
    let c = tenths_to_string(cpu);
    s.append(c.as_str());
    s.append("%, Mem: ");
    let m = tenths_to_string(mem);
    s.append(m.as_str());
    s.append("%)");
    proof {
        assert(s@ =~= spec_reason_load(cpu as int, mem as int));
    }
    s
}

/// Marks one task as running: bumps the active count, turns the status to
/// `Working`, and logs the start with the counts after the bump.
pub fn begin_task(state: &mut AppState, tool: &str)
    requires
        old(state).wf(),
        old(state).active_commands < u32::MAX,
    ensures
        final(state).wf(),
        final(state).active_commands == old(state).active_commands + 1,
        final(state).status == ConnectionStatus::Working,
        final(state).task_queue@ == old(state).task_queue@,
        final(state).settings == old(state).settings,
        final(state).metrics == old(state).metrics,
        final(state).agent_id == old(state).agent_id,
        final(state).is_connected == old(state).is_connected,
        AppState::log_appended(
            *old(state),
            *final(state),
            LogLevel::Info,
            spec_msg_executing(
                tool@,
                old(state).active_commands + 1,
                old(state).task_queue@.len() as int,
            ),
        ),
{
    state.increment_active_commands();
    state.set_status(ConnectionStatus::Working);
    let active = state.get_active_commands();
    let queued = state.get_queue_length();
    let msg = executing_message(tool, active, queued);
    state.log_info(msg);
}

/// Admission: a request is queued when every slot is taken, or when it is
/// a shell command and the host is overloaded; only shell commands are
/// ever queued, every other tool starts at once even at saturation.
///
/// When the request is admitted the task is begun here (count, status,
/// log); when it is queued, the queue notice to send is returned.
///
/// A `run_command` admission never lifts the active count above the
/// ceiling: that is the last clause.
pub fn on_tool_request(
    state: &mut AppState,
    req: &ToolRequest,
    metrics: &SystemMetrics,
    now_ms: i64,
) -> (r: RequestDecision)
    requires
        old(state).wf(),
        old(state).active_commands < u32::MAX,
        old(state).task_queue@.len() < usize::MAX,
    ensures
        final(state).wf(),
        final(state).settings == old(state).settings,
        final(state).metrics == old(state).metrics,
        final(state).agent_id == old(state).agent_id,
        final(state).is_connected == old(state).is_connected,
        ({
            let active = old(state).active_commands;
            let max = old(state).settings.max_concurrent_commands;
            let should_queue = active >= max || (req.tool@ == "run_command"@ && spec_overloaded(
                *metrics,
            ));
            if should_queue && req.tool@ == "run_command"@ {
                &&& r matches RequestDecision::Queued { position, reason } && position == old(
                    state,
                ).task_queue@.len() + 1 && reason@ == (if active >= max {
                    spec_reason_max(max as int)
                } else {
                    spec_reason_load(
                        metrics.cpu_percent_tenths as int,
                        metrics.memory_percent_tenths as int,
                    )
                })
                &&& final(state).task_queue@ == old(state).task_queue@.push(
                    final(state).task_queue@.last(),
                )
                &&& final(state).task_queue@.last().request_id == req.request_id
                &&& final(state).task_queue@.last().session_id == req.session_id
                &&& final(state).task_queue@.last().tool == req.tool
                &&& final(state).task_queue@.last().input == req.input
                &&& final(state).task_queue@.last().cwd@ == (match req.cwd {
                    Some(c) => c@,
                    None => old(state).settings.working_directory@,
                })
                &&& final(state).task_queue@.last().queued_at_ms == now_ms
                &&& final(state).active_commands == old(state).active_commands
                &&& final(state).status == old(state).status
                &&& AppState::log_appended(
                    *old(state),
                    *final(state),
                    LogLevel::Warning,
                    spec_msg_queued(
                        req.tool@,
                        old(state).task_queue@.len() + 1int,
                        metrics.cpu_percent_tenths as int,
                        metrics.memory_percent_tenths as int,
                    ),
                )
            } else {
                &&& r is ExecuteNow
                &&& final(state).active_commands == old(state).active_commands + 1
                &&& final(state).status == ConnectionStatus::Working
                &&& final(state).task_queue@ == old(state).task_queue@
                &&& AppState::log_appended(
                    *old(state),
                    *final(state),
                    LogLevel::Info,
                    spec_msg_executing(
                        req.tool@,
                        old(state).active_commands + 1,
                        old(state).task_queue@.len() as int,
                    ),
                )
            }
        }),
        old(state).active_commands <= old(state).settings.max_concurrent_commands && req.tool@
            == "run_command"@ ==> final(state).active_commands <= old(
            state,
        ).settings.max_concurrent_commands,
{
    let active = state.get_active_commands();
    let max = state.settings.max_concurrent_commands;
    let overloaded = is_system_overloaded(metrics);
    let is_run = str_eq(req.tool.as_str(), "run_command");
    let should_queue = active >= max || (is_run && overloaded);
    if should_queue && is_run {
        let cwd = match &req.cwd {
            Some(c) => c.clone(),
            None => state.settings.working_directory.clone(),
        };
        let task = QueuedTask {
            request_id: req.request_id.clone(),
            session_id: req.session_id.clone(),
            tool: req.tool.clone(),
            input: req.input.duplicate(),
            cwd,
            queued_at_ms: now_ms,
        };
        let position = state.enqueue_task(task);
        let msg = queued_message(
            req.tool.as_str(),
            position,
            metrics.cpu_percent_tenths,
            metrics.memory_percent_tenths,
        );
        state.log_warning(msg);
        let reason = if active >= max {
            reason_max(max)
        } else {
            reason_load(metrics.cpu_percent_tenths, metrics.memory_percent_tenths)
        };
        RequestDecision::Queued { position, reason }
    } else {
        begin_task(state, req.tool.as_str());
        RequestDecision::ExecuteNow
    }
}

/// One drain step: the queue loses its head when it has one.
pub open spec fn spec_drain_step(q: Seq<QueuedTask>) -> Seq<QueuedTask> {
    if q.len() > 0 {
        q.skip(1)
    } else {
        q
    }
}

/// Completion: drops the active count (saturating at zero), logs the
/// outcome with the counts after the drop, reverts the status to
/// `Connected` when the last task of a live connection finished, and
/// drains the queue head if there is headroom and no overload.
///
/// The drained task, if any, is handed back for the caller to begin; it
/// is exactly the oldest queued task, first in, first out.
pub fn on_tool_complete(
    state: &mut AppState,
    tool: &str,
    had_error: bool,
    metrics: &SystemMetrics,
    now_ms: i64,
) -> (drained: Option<QueuedTask>)
    requires
        old(state).wf(),
    ensures
        final(state).wf(),
        final(state).settings == old(state).settings,
        final(state).metrics == old(state).metrics,
        final(state).agent_id == old(state).agent_id,
        final(state).is_connected == old(state).is_connected,
        final(state).active_commands == (if old(state).active_commands > 0 {
            old(state).active_commands - 1
        } else {
            0
        }),
        final(state).status == (if final(state).active_commands == 0 && old(state).is_connected {
            ConnectionStatus::Connected
        } else {
            old(state).status
        }),
        ({
            let can_drain = final(state).active_commands
                < old(state).settings.max_concurrent_commands && !spec_overloaded(*metrics);
            &&& (can_drain ==> final(state).task_queue@ == spec_drain_step(
                old(state).task_queue@,
            ))
            &&& if can_drain && old(state).task_queue@.len() > 0 {
                &&& drained == Some(old(state).task_queue@[0])
                &&& final(state).task_queue@ == old(state).task_queue@.skip(1)
            } else {
                &&& drained is None
                &&& final(state).task_queue@ == old(state).task_queue@
            }
        }),
        final(state).logs@.len() >= 1,
        ({
            let completion = spec_msg_completion(
                had_error,
                tool@,
                if old(state).active_commands > 0 {
                    old(state).active_commands - 1
                } else {
                    0
                },
                old(state).task_queue@.len() as int,
            );
            match drained {
                Some(task) => {
                    &&& final(state).logs@.last().level == LogLevel::Info
                    &&& final(state).logs@.last().message@ == spec_msg_dequeued(
                        task.tool@,
                        spec_clamped_diff(now_ms as int, task.queued_at_ms as int),
                    )
                    &&& final(state).logs@.len() >= 2
                    &&& final(state).logs@[final(state).logs@.len() - 2].message@ == completion
                    &&& final(state).logs@[final(state).logs@.len() - 2].level == (if had_error {
                        LogLevel::Error
                    } else {
                        LogLevel::Success
                    })
                },
                None => {
                    &&& final(state).logs@.last().message@ == completion
                    &&& final(state).logs@.last().level == (if had_error {
                        LogLevel::Error
                    } else {
                        LogLevel::Success
                    })
                },
            }
        }),
{
    state.decrement_active_commands();
    let active = state.get_active_commands();
    let queued = state.get_queue_length();
    let msg = completion_message(had_error, tool, active, queued);
    if had_error {
        state.log_error(msg);
    } else {
        state.log_success(msg);
    }
    if active == 0 && state.is_connected {
        state.set_status(ConnectionStatus::Connected);
    }
    let max = state.settings.max_concurrent_commands;
    if active < max && !is_system_overloaded(metrics) {
        match state.dequeue_task() {
            Some(task) => {
                let wait = clamped_diff(now_ms, task.queued_at_ms);
                let msg2 = dequeued_message(task.tool.as_str(), wait);
                state.log_info(msg2);
                Some(task)
            },
            None => None,
        }
    } else {
        None
    }
}

/// `n` drain steps in a row.
pub open spec fn spec_drain_iter(q: Seq<QueuedTask>, n: nat) -> Seq<QueuedTask>
    decreases n,
{
    if n == 0 {
        q
    } else {
        spec_drain_step(spec_drain_iter(q, (n - 1) as nat))
    }
}

proof fn lemma_drain_iter_len(q: Seq<QueuedTask>, n: nat)
    ensures
        spec_drain_iter(q, n).len() == if q.len() >= n {
            q.len() - n
        } else {
            0int
        },
    decreases n,
{
    if n > 0 {
        lemma_drain_iter_len(q, (n - 1) as nat);
    }
}

/// The queue drains to empty: each completion with free headroom and no
/// overload removes exactly the queue head (`on_tool_complete` ensures one
/// `spec_drain_step`), so while no new request arrives, after as many such
/// completions as the queue is long, nothing is left queued.
pub proof fn lemma_queue_drains_to_empty(q: Seq<QueuedTask>, n: nat)
    requires
        n >= q.len(),
    ensures
        spec_drain_iter(q, n).len() == 0,
{
    lemma_drain_iter_len(q, n);
}

/// Draining is strictly first in, first out: as long as enough tasks
/// remain, `n` drain steps leave exactly the tasks from position `n` on,
/// so the task drained next after them is the one queued `n`-th.
pub proof fn lemma_fifo_order(q: Seq<QueuedTask>, n: nat)
    requires
        n <= q.len(),
    ensures
        spec_drain_iter(q, n) == q.skip(n as int),
        n < q.len() ==> spec_drain_iter(q, n)[0] == q[n as int],
    decreases n,
{
    if n == 0 {
        assert(q.skip(0) =~= q);
    } else {
        lemma_fifo_order(q, (n - 1) as nat);
        lemma_drain_iter_len(q, (n - 1) as nat);
        assert(spec_drain_iter(q, (n - 1) as nat).skip(1) =~= q.skip(n as int));
    }
}

} // verus!
