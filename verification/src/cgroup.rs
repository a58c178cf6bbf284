//! The cgroup sandbox: a cgroup node named `code-goat` under the unified
//! hierarchy that accounts and limits the runner's CPU and memory use.
//!
//! The CPU controller is pinned to one full CPU (period and quota both
//! 100 000 microseconds) and swapping is switched off. When a memory
//! limit is set, the node's hard limit is the user's limit plus a one
//! mebibyte margin, so that the kernel kills the runner *above* the
//! limit and the violation shows in the counters instead of a bare
//! `SIGKILL`.

use vstd::prelude::*;
use vstd::string::StrSliceExecFns;
use vstd::string::StringSliceAdditionalSpecFns;
use crate::compare::{bytes_equal, split_lines, split_lines_exec, sub_bytes};
use crate::text::{parse_u32_dec, spec_parse_u32, spec_tokens, tokens_exec};
use crate::models::{InternalError, ResourceLimit, ResourceUsage, U63, U63_MAX_VALUE};

verus! {

/// One mebibyte: the margin added to the user's memory limit.
pub const MEBI_BYTE: u32 = 1024 * 1024;

#[verifier::external_type_specification]
#[verifier::external_body]
pub struct ExCgroup(cgroups_rs::fs::Cgroup);

#[verifier::external_type_specification]
#[verifier::external_body]
pub struct ExMemController(cgroups_rs::fs::memory::MemController);

#[verifier::external_type_specification]
#[verifier::external_body]
pub struct ExCpuController(cgroups_rs::fs::cpu::CpuController);

/// Relies on cgroups_rs's `CgroupBuilder`: creates a cgroup with the
/// given name, CPU period and quota in microseconds, swappiness, and a
/// hard memory limit in bytes. The node's state lives in the kernel, so
/// nothing is promised of the returned handle.
#[verifier::external_body]
fn cg_build_limited(name: &str, period: u64, quota: i64, swappiness: u64, memory_max: i64) -> (r:
    Result<cgroups_rs::fs::Cgroup, String>)
{
    cgroups_rs::fs::cgroup_builder::CgroupBuilder::new(name)
        .cpu().period(period).quota(quota).done()
        .memory().swappiness(swappiness).memory_hard_limit(memory_max).done()
        .build(cgroups_rs::fs::hierarchies::auto())
        .map_err(|e| format!("{}", e))
}

/// Relies on cgroups_rs's `CgroupBuilder`, as [`cg_build_limited`], but
/// without a memory limit.
#[verifier::external_body]
fn cg_build_unlimited(name: &str, period: u64, quota: i64, swappiness: u64) -> (r: Result<
    cgroups_rs::fs::Cgroup,
    String,
>)
{
    cgroups_rs::fs::cgroup_builder::CgroupBuilder::new(name)
        .cpu().period(period).quota(quota).done()
        .memory().swappiness(swappiness).done()
        .build(cgroups_rs::fs::hierarchies::auto())
        .map_err(|e| format!("{}", e))
}

/// Relies on `Cgroup::add_task_by_tgid`: moves the whole thread group of
/// `pid` into the cgroup.
#[verifier::external_body]
fn cg_add_tgid(cg: &cgroups_rs::fs::Cgroup, pid: u64) -> (r: Result<(), String>)
{
    cg.add_task_by_tgid(cgroups_rs::CgroupPid::from(pid)).map_err(|e| format!("{}", e))
}

/// Relies on `Cgroup::controller_of`: the memory controller of the node,
/// if the hierarchy carries one.
#[verifier::external_body]
fn cg_mem_controller<'a>(cg: &'a cgroups_rs::fs::Cgroup) -> (r: Option<
    &'a cgroups_rs::fs::memory::MemController,
>)
{
    cg.controller_of()
}

/// Relies on `MemController::memory_stat`: the peak memory use of the
/// node in bytes (`memory.peak` on the unified hierarchy). The value
/// comes from the kernel, so nothing is promised of it.
#[verifier::external_body]
fn cg_mem_peak(c: &cgroups_rs::fs::memory::MemController) -> (r: u64)
{
    c.memory_stat().max_usage_in_bytes
}

/// Relies on `Cgroup::controller_of`: the CPU controller of the node, if
/// the hierarchy carries one.
#[verifier::external_body]
fn cg_cpu_controller<'a>(cg: &'a cgroups_rs::fs::Cgroup) -> (r: Option<
    &'a cgroups_rs::fs::cpu::CpuController,
>)
{
    cg.controller_of()
}

/// Relies on `CpuController::cpu`: the text of the node's `cpu.stat`
/// file. Its content comes from the kernel, so nothing is promised of
/// it.
#[verifier::external_body]
fn cg_cpu_stat(c: &cgroups_rs::fs::cpu::CpuController) -> (r: String)
{
    c.cpu().stat
}

/// Relies on `Cgroup::delete`: removes the cgroup node.
#[verifier::external_body]
fn cg_delete(cg: &cgroups_rs::fs::Cgroup) -> (r: Result<(), String>)
{
    cg.delete().map_err(|e| format!("{}", e))
}

/// The memory hard limit written to the cgroup: the user's limit plus
/// one mebibyte, saturating at `2^63 - 1`.
pub open spec fn spec_memory_max(limit: u64) -> int {
    if limit + MEBI_BYTE <= U63_MAX_VALUE {
        limit + MEBI_BYTE
    } else {
        U63_MAX_VALUE as int
    }
}

/// As long as it does not saturate, the configured hard limit leaves the
/// full one-mebibyte margin above the user's limit.
pub proof fn lemma_memory_margin(limit: u64)
    requires
        limit + MEBI_BYTE <= U63_MAX_VALUE,
    ensures
        spec_memory_max(limit) >= limit + MEBI_BYTE,
{
}

/// The memory hard limit handed to the kernel for a user limit.
pub fn memory_hard_limit_for(limit: U63) -> (r: i64)
    ensures
        r == spec_memory_max(limit.spec_value()),
{
    limit.saturating_add(MEBI_BYTE as u64).to_i64()
}

/// A live cgroup node owning the runner's CPU and memory accounting.
pub struct CgroupSandbox {
    inner: cgroups_rs::fs::Cgroup,
}

impl CgroupSandbox {
    /// Create the `code-goat` cgroup node: one full CPU, no swapping,
    /// and, when a memory limit is set, a hard limit of the user's limit
    /// plus one mebibyte.
    pub fn new(resource_limit: &ResourceLimit) -> (r: Result<CgroupSandbox, InternalError>)
        ensures
            r matches Err(e) ==> e is CreateCgroup,
    {
        let built = match &resource_limit.memory {
            Some(limit) => cg_build_limited(
                "code-goat",
                100000,
                100000,
                0,
                memory_hard_limit_for(*limit),
            ),
            None => cg_build_unlimited("code-goat", 100000, 100000, 0),
        };
        match built {
            Ok(cg) => Ok(CgroupSandbox { inner: cg }),
            Err(e) => Err(InternalError::CreateCgroup(e)),
        }
    }

    /// Move the runner (by thread-group id) into the cgroup.
    pub fn add_process(&self, pid: i32) -> (r: Result<(), InternalError>)
        requires
            pid >= 0,
        ensures
            r matches Err(e) ==> e is AddToCgroup,
    {
        match cg_add_tgid(&self.inner, pid as u64) {
            Ok(()) => Ok(()),
            Err(e) => Err(InternalError::AddToCgroup(e)),
        }
    }

    /// The peak memory use of the node in bytes.
    pub fn read_memory_usage(&self) -> (r: Result<u64, InternalError>)
        ensures
            r matches Err(e) ==> e is ReadCgroupMemoryStats,
    {
        match cg_mem_controller(&self.inner) {
            Some(c) => Ok(cg_mem_peak(c)),
            None => Err(InternalError::ReadCgroupMemoryStats),
        }
    }

    /// The CPU time the node's tasks have used, in milliseconds: the
    /// `usage_usec` counter of `cpu.stat`, divided by 1000. The stat text
    /// comes from the kernel; whatever it holds is put through
    /// [`parse_cpu_time_ms`], and a text without a readable counter is an
    /// error.
    pub fn read_cpu_time_usage(&self) -> (r: Result<u32, InternalError>)
        ensures
            r matches Err(e) ==> e is ReadCgroupCpuStats,
    {
        let stat = match cg_cpu_controller(&self.inner) {
            Some(c) => cg_cpu_stat(c),
            None => {
                return Err(InternalError::ReadCgroupCpuStats);
            },
        };
        match parse_cpu_time_ms(stat.as_str()) {
            Some(ms) => Ok(ms),
            None => Err(InternalError::ReadCgroupCpuStats),
        }
    }

    /// Measured usage of one finished run: peak memory and CPU time from
    /// the cgroup counters, wall-clock time as handed in.
    pub fn read_usage(&self, real_time_ms: u32) -> (r: Result<ResourceUsage, InternalError>)
        ensures
            r matches Ok(u) ==> u.real_time == real_time_ms,
            r matches Err(e) ==> (e is ReadCgroupMemoryStats || e is ReadCgroupCpuStats),
    {
        let memory = match self.read_memory_usage() {
            Ok(m) => m,
            Err(e) => {
                return Err(e);
            },
        };
        let cpu_time = match self.read_cpu_time_usage() {
            Ok(c) => c,
            Err(e) => {
                return Err(e);
            },
        };
        Ok(ResourceUsage::new(memory, cpu_time, real_time_ms))
    }

    /// Remove the cgroup node. The caller decides what to do on failure;
    /// a stale node from a crashed earlier run is not fatal.
    pub fn delete(&self) -> (r: Result<(), String>)
    {
        cg_delete(&self.inner)
    }
}

/// Whether a line of `cpu.stat` is the `usage_usec` line.
pub open spec fn spec_is_usage_line(l: Seq<u8>) -> bool {
    let p = "usage_usec".spec_bytes();
    l.len() >= p.len() && l.take(p.len() as int) == p
}

/// The first `usage_usec` line among `ls`, if any.
pub open spec fn spec_first_usage_line(ls: Seq<Seq<u8>>) -> Option<Seq<u8>>
    decreases ls.len(),
{
    if ls.len() == 0 {
        None
    } else if spec_is_usage_line(ls[0]) {
        Some(ls[0])
    } else {
        spec_first_usage_line(ls.drop_first())
    }
}

/// The `usage_usec` counter of a `cpu.stat` text: the second token of
/// the first line that starts with `usage_usec`, read as a decimal
/// `u32`.
pub open spec fn spec_usage_usec(stat: Seq<u8>) -> Option<u32> {
    match spec_first_usage_line(split_lines(stat)) {
        Some(l) => {
            let ts = spec_tokens(l);
            if ts.len() >= 2 {
                spec_parse_u32(ts[1])
            } else {
                None
            }
        },
        None => None,
    }
}

/// The CPU time a `cpu.stat` text reports, in milliseconds: the
/// `usage_usec` counter divided by 1000, or nothing when the text holds
/// no readable counter. Exactly [`spec_usage_usec`], divided by 1000.
pub fn parse_cpu_time_ms(stat: &str) -> (r: Option<u32>)
    ensures
        spec_usage_usec(stat.spec_bytes()) matches Some(us) ==> r == Some(us / 1000),
        spec_usage_usec(stat.spec_bytes()) is None ==> r is None,
{
    let stat_bytes = stat.as_bytes_vec();
    let lines = split_lines_exec(&stat_bytes);
    let ghost lines_dv = lines.deep_view();
    let prefix = "usage_usec".as_bytes();
    let mut i: usize = 0;
    proof {
        assert(lines_dv.skip(0) =~= lines_dv);
    }
    while i < lines.len()
        invariant
            i <= lines@.len(),
            lines.deep_view() == lines_dv,
            lines@.len() == lines_dv.len(),
            lines_dv == split_lines(stat.spec_bytes()),
            prefix@ == "usage_usec".spec_bytes(),
            spec_first_usage_line(lines_dv) == spec_first_usage_line(lines_dv.skip(i as int)),
            forall|m: int| 0 <= m < i ==> !spec_is_usage_line(#[trigger] lines_dv[m]),
        decreases lines@.len() - i,
    {
        let line = &lines[i];
        proof {
            assert(line@ == lines_dv[i as int]);
        }
        let is_usage = if line.len() >= prefix.len() {
            let head = sub_bytes(line, 0, prefix.len());
            bytes_equal(head.as_slice(), prefix)
        } else {
            false
        };
        proof {
            let rest = lines_dv.skip(i as int);
            assert(rest[0] == lines_dv[i as int]);
            assert(is_usage == spec_is_usage_line(lines_dv[i as int]));
            if !is_usage {
                assert(rest.drop_first() =~= lines_dv.skip(i + 1));
            }
        }
        if is_usage {
            let ts = tokens_exec(line);
            if ts.len() < 2 {
                return None;
            }
            let us = match parse_u32_dec(&ts[1]) {
                Some(us) => us,
                None => {
                    proof {
                        assert(ts@[1]@ == ts.deep_view()[1]);
                    }
                    return None;
                },
            };
            proof {
                assert(ts@[1]@ == ts.deep_view()[1]);
            }
            return Some(us / 1000);
        }
        i = i + 1;
    }
    proof {
        assert(lines_dv.skip(i as int) =~= Seq::<Seq<u8>>::empty());
    }
    None
}

} // verus!
