//! Margin arithmetic for the resource limits applied inside the runner,
//! and the rlimit layer that hands them to the kernel.
//!
//! Every limit handed to the kernel carries a safety margin, so that the
//! finer-grained detectors (the cgroup counters, the wall-clock
//! watchdog) classify a violation before the kernel issues an
//! untraceable `SIGKILL`. Memory is not limited here: the cgroup owns
//! that dimension, because rlimits underestimate the cost of anonymous
//! mappings.

use vstd::prelude::*;
use crate::cgroup::MEBI_BYTE;
use crate::models::ResourceLimit;
use crate::sys;
use crate::sys::RlimitKind;

verus! {

/// One megabyte: the margin added to the output-size limit.
pub const MEGA_BYTE: u32 = 1000 * 1000;

/// A limit together with its margin: the margin is one twentieth of the
/// limit, but never less than `min_margin`.
pub open spec fn timeout_with_margin(limit: nat, min_margin: nat) -> nat {
    if limit / 20 > min_margin {
        limit + limit / 20
    } else {
        limit + min_margin
    }
}

/// Widen a limit by a 5% margin, floored at `min_margin`.
///
/// The watchdog waits `calculate_timeout(real_time_ms, 10)` milliseconds
/// before it kills the runner; the CPU rlimit is derived from
/// `calculate_timeout(cpu_time_ms, 1000)`.
pub fn calculate_timeout(limit: u32, min_margin: u32) -> (r: u64)
    ensures
        r == timeout_with_margin(limit as nat, min_margin as nat),
{
    let margin: u64 = if limit / 20 > min_margin {
        (limit / 20) as u64
    } else {
        min_margin as u64
    };
    limit as u64 + margin
}

/// The `RLIMIT_CPU` value in seconds for a CPU limit in milliseconds:
/// the limit widened by its margin (at least one second), divided by
/// 1000 rounding up.
pub open spec fn spec_rlimit_cpu_seconds(cpu_ms: nat) -> int {
    ((timeout_with_margin(cpu_ms, 1000) + 999) as int) / 1000
}

/// The `RLIMIT_CPU` value for a CPU limit in milliseconds.
pub fn rlimit_cpu_seconds(cpu_ms: u32) -> (r: u64)
    ensures
        r == spec_rlimit_cpu_seconds(cpu_ms as nat),
{
    (calculate_timeout(cpu_ms, 1000) + 999) / 1000
}

/// The CPU rlimit leaves at least one full second above the user's
/// limit: it is no less than the limit in seconds, rounded up, plus
/// one.
pub proof fn lemma_cpu_rlimit_margin(cpu_ms: nat)
    ensures
        spec_rlimit_cpu_seconds(cpu_ms) >= (cpu_ms + 999) / 1000 + 1,
{
    let t = timeout_with_margin(cpu_ms, 1000);
    assert(t >= cpu_ms + 1000);
    vstd::arithmetic::div_mod::lemma_div_is_ordered(cpu_ms as int + 1999, t as int + 999, 1000);
    let a = cpu_ms as int + 999;
    vstd::arithmetic::div_mod::lemma_fundamental_div_mod(a, 1000);
    vstd::arithmetic::div_mod::lemma_mod_bound(a, 1000);
    let q = a / 1000;
    let r = a % 1000;
    assert(a + 1000 == 1000 * (q + 1) + r);
    vstd::arithmetic::div_mod::lemma_div_multiples_vanish_fancy(q + 1, r, 1000);
    assert((a + 1000) / 1000 == q + 1);
}

/// The `RLIMIT_STACK` value for a stack limit in bytes: one mebibyte of
/// headroom above the user's limit.
pub fn rlimit_stack_bytes(stack: u32) -> (r: u64)
    ensures
        r == stack + MEBI_BYTE,
{
    stack as u64 + MEBI_BYTE as u64
}

/// The `RLIMIT_FSIZE` value for an output limit in bytes: one megabyte
/// of headroom above the user's limit.
pub fn rlimit_output_bytes(output: u32) -> (r: u64)
    ensures
        r == output + MEGA_BYTE,
{
    output as u64 + MEGA_BYTE as u64
}

/// Apply the POSIX resource limits inside the runner: CPU seconds,
/// process count, stack size and output size, each with its margin,
/// soft and hard set alike. Dimensions without a limit are left alone.
/// Returns the errno value of the first failing `setrlimit`.
pub fn set_limit_to_sandbox(resource_limit: &ResourceLimit) -> (r: Result<(), i32>)
    ensures
        r matches Err(e) ==> e != 0,
{
    if let Some(limit_ms) = resource_limit.cpu_time {
        let limit_s = rlimit_cpu_seconds(limit_ms);
        if let Err(e) = sys::sys_setrlimit(&RlimitKind::Cpu, limit_s, limit_s) {
            return Err(sys::nonzero_errno(e));
        }
    }
    if let Some(limit) = resource_limit.n_process {
        let limit = limit as u64;
        if let Err(e) = sys::sys_setrlimit(&RlimitKind::NProc, limit, limit) {
            return Err(sys::nonzero_errno(e));
        }
    }
    if let Some(limit) = resource_limit.stack {
        let limit = rlimit_stack_bytes(limit);
        if let Err(e) = sys::sys_setrlimit(&RlimitKind::Stack, limit, limit) {
            return Err(sys::nonzero_errno(e));
        }
    }
    if let Some(limit) = resource_limit.output {
        let limit = rlimit_output_bytes(limit);
        if let Err(e) = sys::sys_setrlimit(&RlimitKind::Fsize, limit, limit) {
            return Err(sys::nonzero_errno(e));
        }
    }
    Ok(())
}

} // verus!
