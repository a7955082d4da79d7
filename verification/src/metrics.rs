//! Host sampling through sysinfo, and the verified arithmetic that turns
//! raw samples into the metrics snapshot the agent reports.

use vstd::prelude::*;
use crate::state::{AppState, SystemMetrics};


verus! {

/// Overload begins above this CPU share, in tenths of a percent.
pub const MAX_CPU_PERCENT_TENTHS: u64 = 800;

/// Overload begins above this memory share, in tenths of a percent.
pub const MAX_MEMORY_PERCENT_TENTHS: u64 = 850;

/// Static host facts reported at registration.
#[derive(Clone, Debug)]
pub struct SystemInfo {
    pub cpus: usize,
    pub total_memory_mb: u64,
    pub hostname: String,
    pub platform: String,
}

#[verifier::external_type_specification]
#[verifier::external_body]
pub struct ExSystem(sysinfo::System);

/// Relies on sysinfo::System::new_all: a snapshot refreshed with
/// everything the crate samples. Nothing is promised of its readings.
#[verifier::external_body]
fn system_snapshot() -> sysinfo::System {
    sysinfo::System::new_all()
}

/// Relies on sysinfo::System::refresh_all: refreshes every reading of the
/// snapshot in place.
#[verifier::external_body]
fn refresh_snapshot(sys: &mut sysinfo::System) {
    sys.refresh_all();
}

/// Relies on sysinfo::System::total_memory: the RAM size in bytes.
#[verifier::external_body]
fn total_memory_bytes(sys: &sysinfo::System) -> u64 {
    sys.total_memory()
}

/// Relies on sysinfo::System::used_memory: the RAM in use, in bytes.
#[verifier::external_body]
fn used_memory_bytes(sys: &sysinfo::System) -> u64 {
    sys.used_memory()
}

/// Relies on sysinfo::System::cpus: how many CPUs the host reports.
#[verifier::external_body]
fn cpu_count(sys: &sysinfo::System) -> usize {
    sys.cpus().len()
}

/// Relies on sysinfo::System::host_name: the hostname, if the platform
/// reports one.
#[verifier::external_body]
fn host_name_opt() -> Option<String> {
    sysinfo::System::host_name()
}

/// Bytes written as whole mebibytes, rounding down.
pub open spec fn spec_bytes_to_mb(b: int) -> int {
    b / 1024 / 1024
}

/// A share written in tenths of a percent, rounded to the nearest tenth
/// (half up); zero when the whole is zero, and capped at 100.0% since no
/// part can meaningfully exceed its whole.
pub open spec fn spec_percent_tenths(part: int, whole: int) -> int {
    if whole <= 0 {
        0
    } else if part >= whole {
        1000
    } else {
        (2000 * part + whole) / (2 * whole)
    }
}

/// Folds raw samples and the two shared counters into one snapshot.
pub fn metrics_from_samples(
    cpu_tenths: u64,
    used_bytes: u64,
    total_bytes: u64,
    active_commands: u32,
    queued_tasks: u32,
) -> (r: SystemMetrics)
    ensures
        r == (SystemMetrics {
            cpu_percent_tenths: cpu_tenths,
            memory_used_mb: (spec_bytes_to_mb(used_bytes as int)) as u64,
            memory_total_mb: (spec_bytes_to_mb(total_bytes as int)) as u64,
            memory_percent_tenths: (spec_percent_tenths(
                used_bytes as int,
                total_bytes as int,
            )) as u64,
            active_commands,
            queued_tasks,
        }),
        r.memory_percent_tenths <= 1000,
{
    let memory_percent_tenths: u64 = if total_bytes == 0 {
        0
    } else if used_bytes >= total_bytes {
        1000
    } else {
        let wide: u128 = (2000u128 * (used_bytes as u128) + (total_bytes as u128)) / (2u128
            * (total_bytes as u128));
        assert(wide <= 1000) by (nonlinear_arith)
            requires
                wide == (2000 * (used_bytes as u128) + (total_bytes as u128)) / (2 * (
                total_bytes as u128)),
                used_bytes < total_bytes,
                total_bytes >= 1,
        ;
        wide as u64
    };
    SystemMetrics {
        cpu_percent_tenths: cpu_tenths,
        memory_used_mb: used_bytes / 1024 / 1024,
        memory_total_mb: total_bytes / 1024 / 1024,
        memory_percent_tenths,
        active_commands,
        queued_tasks,
    }
}

/// Whether the host is overloaded: CPU above 80% or memory above 85%.
pub open spec fn spec_overloaded(m: SystemMetrics) -> bool {
    m.cpu_percent_tenths > MAX_CPU_PERCENT_TENTHS || m.memory_percent_tenths
        > MAX_MEMORY_PERCENT_TENTHS
}

/// Check if the host is under high load.
pub fn is_system_overloaded(metrics: &SystemMetrics) -> (r: bool)
    ensures
        r == spec_overloaded(*metrics),
{
    metrics.cpu_percent_tenths > MAX_CPU_PERCENT_TENTHS || metrics.memory_percent_tenths
        > MAX_MEMORY_PERCENT_TENTHS
}

/// Samples the host memory and fills the two counters from shared state.
/// The folding arithmetic is `metrics_from_samples`; the raw readings are
/// the machine's and carry no promise. The processor share is sampled by
/// the caller, in tenths of a percent, because the host reports it as a
/// floating-point figure.
pub fn collect_system_metrics(state: &AppState, cpu_tenths: u64) -> (r: SystemMetrics)
    ensures
        r.cpu_percent_tenths == cpu_tenths,
        r.memory_percent_tenths <= 1000,
        r.active_commands == state.active_commands,
        r.queued_tasks as int == if state.task_queue@.len() > u32::MAX {
            u32::MAX as int
        } else {
            state.task_queue@.len() as int
        },
{
    let mut sys = system_snapshot();
    refresh_snapshot(&mut sys);
    let cpu = cpu_tenths;
    let total = total_memory_bytes(&sys);
    let used = used_memory_bytes(&sys);
    let queue_len = state.get_queue_length();
    let queued: u32 = if queue_len > u32::MAX as usize {
        u32::MAX
    } else {
        queue_len as u32
    };
    metrics_from_samples(cpu, used, total, state.get_active_commands(), queued)
}

/// The reported hostname, or the fixed fallback when none is known.
pub fn hostname_or_unknown(name: Option<String>) -> (r: String)
    ensures
        match name {
            Some(h) => r == h,
            None => r@ == "unknown"@,
        },
{
    match name {
        Some(h) => h,
        None => String::from_str("unknown"),
    }
}

/// Captures the static host facts: CPU count, total memory, hostname with
/// its fallback, and the platform name the caller passes through.
pub fn get_system_info(platform: &str) -> (r: SystemInfo)
    ensures
        r.platform@ == platform@,
{
    let sys = system_snapshot();
    let total = total_memory_bytes(&sys);
    SystemInfo {
        cpus: cpu_count(&sys),
        total_memory_mb: total / 1024 / 1024,
        hostname: hostname_or_unknown(host_name_opt()),
        platform: String::from_str(platform),
    }
}

/// The host summary logged after registration.
pub open spec fn spec_host_summary(cpus: int, total_mb: int) -> Seq<char> {
    "System: "@ + crate::strutil::spec_dec(cpus) + " CPUs, "@ + crate::strutil::spec_dec(total_mb)
        + "MB RAM"@
}

/// Writes the host summary line for the activity log.
pub fn host_summary(info: &SystemInfo) -> (r: String)
    ensures
        r@ == spec_host_summary(info.cpus as int, info.total_memory_mb as int),
{
    let mut s = String::from_str("System: ");
    let cpus = crate::strutil::u64_to_string(info.cpus as u64);
    s.append(cpus.as_str());
    s.append(" CPUs, ");
    let mb = crate::strutil::u64_to_string(info.total_memory_mb);
    s.append(mb.as_str());
    s.append("MB RAM");
    proof {
        assert(s@ =~= spec_host_summary(info.cpus as int, info.total_memory_mb as int));
    }
    s
}

} // verus!
