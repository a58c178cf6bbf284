//! Core data types of the judging sandbox: resource limits, measured usage,
//! verdicts, and the internal-error taxonomy.

use vstd::prelude::*;
use vstd::string::StringExecFns;
use crate::sys;

verus! {

/// Largest value a [`U63`] can hold: `2^63 - 1`.
pub const U63_MAX_VALUE: u64 = 0x7fff_ffff_ffff_ffff;

/// A 63-bit unsigned integer.
///
/// Memory limits travel through both unsigned and signed 64-bit kernel
/// interfaces; a value that fits in 63 bits round-trips through either.
/// Construction and addition saturate at `2^63 - 1`.
#[derive(Debug, Clone, Copy, PartialEq, Eq, PartialOrd)]
pub struct U63 {
    v: u64,
}

impl U63 {
    #[verifier::type_invariant]
    spec fn type_inv(self) -> bool {
        self.v <= U63_MAX_VALUE
    }

    /// The value held, as a mathematical quantity.
    pub closed spec fn spec_value(self) -> u64 {
        self.v
    }

    /// The largest representable value.
    pub fn max_value() -> (r: U63)
        ensures
            r.spec_value() == U63_MAX_VALUE,
    {
        U63 { v: U63_MAX_VALUE }
    }

    /// Whether `value` fits in 63 bits.
    pub fn does_fit(value: u64) -> (r: bool)
        ensures
            r == (value <= U63_MAX_VALUE),
    {
        value <= U63_MAX_VALUE
    }

    /// Clamp `value` into the 63-bit range.
    pub fn saturating_new(value: u64) -> (r: U63)
        ensures
            r.spec_value() == if value <= U63_MAX_VALUE {
                value
            } else {
                U63_MAX_VALUE
            },
    {
        if value <= U63_MAX_VALUE {
            U63 { v: value }
        } else {
            U63 { v: U63_MAX_VALUE }
        }
    }

    /// Accept `value` only if it fits in 63 bits.
    pub fn try_new(value: u64) -> (r: Option<U63>)
        ensures
            value <= U63_MAX_VALUE ==> (r matches Some(u) && u.spec_value() == value),
            value > U63_MAX_VALUE ==> r is None,
    {
        if value <= U63_MAX_VALUE {
            Some(U63 { v: value })
        } else {
            None
        }
    }

    /// Saturating addition: `self + other`, clamped at `2^63 - 1`.
    pub fn saturating_add(&self, other: u64) -> (r: U63)
        ensures
            r.spec_value() == if self.spec_value() + other <= U63_MAX_VALUE {
                self.spec_value() + other
            } else {
                U63_MAX_VALUE as int
            },
    {
        proof {
            use_type_invariant(self);
        }
        if other <= U63_MAX_VALUE - self.v {
            U63 { v: self.v + other }
        } else {
            U63 { v: U63_MAX_VALUE }
        }
    }

    /// The value as an unsigned 64-bit integer.
    pub fn to_u64(&self) -> (r: u64)
        ensures
            r == self.spec_value(),
            r <= U63_MAX_VALUE,
    {
        proof {
            use_type_invariant(self);
        }
        self.v
    }

    /// The value as a signed 64-bit integer; always non-negative.
    pub fn to_i64(&self) -> (r: i64)
        ensures
            r == self.spec_value(),
            r >= 0,
    {
        proof {
            use_type_invariant(self);
        }
        self.v as i64
    }
}

/// Map a raw counter to an optional limit: zero means "unlimited".
pub fn wrap_number(value: u64) -> (r: Option<u64>)
    ensures
        value > 0 ==> r == Some(value),
        value == 0 ==> r is None,
{
    if value > 0 {
        Some(value)
    } else {
        None
    }
}

/// The resource budget of one judgment. An absent field means that
/// dimension is unlimited.
#[derive(Debug)]
pub struct ResourceLimit {
    /// Peak memory usage in bytes.
    pub memory: Option<U63>,
    /// CPU time in milliseconds.
    pub cpu_time: Option<u32>,
    /// Wall-clock time in milliseconds.
    pub real_time: Option<u32>,
    /// Stack size in bytes.
    pub stack: Option<u32>,
    /// Number of processes.
    pub n_process: Option<u16>,
    /// Output size in bytes.
    pub output: Option<u32>,
}

impl ResourceLimit {
    pub fn new(
        memory: Option<U63>,
        cpu_time: Option<u32>,
        real_time: Option<u32>,
        stack: Option<u32>,
        n_process: Option<u16>,
        output: Option<u32>,
    ) -> (r: ResourceLimit)
        ensures
            r.memory == memory,
            r.cpu_time == cpu_time,
            r.real_time == real_time,
            r.stack == stack,
            r.n_process == n_process,
            r.output == output,
    {
        ResourceLimit { memory, cpu_time, real_time, stack, n_process, output }
    }

    /// Build a limit set from raw counters, where zero means "unlimited".
    /// Fails only when the memory counter does not fit in 63 bits.
    pub fn from_raw(
        memory: u64,
        cpu_time: u32,
        real_time: u32,
        stack: u32,
        n_process: u16,
        output: u32,
    ) -> (r: Option<ResourceLimit>)
        ensures
            memory > U63_MAX_VALUE ==> r is None,
            memory <= U63_MAX_VALUE ==> (r matches Some(l) && {
                &&& if memory > 0 {
                    l.memory matches Some(m) && m.spec_value() == memory
                } else {
                    l.memory is None
                }
                &&& l.cpu_time == if cpu_time > 0 { Some(cpu_time) } else { None::<u32> }
                &&& l.real_time == if real_time > 0 { Some(real_time) } else { None::<u32> }
                &&& l.stack == if stack > 0 { Some(stack) } else { None::<u32> }
                &&& l.n_process == if n_process > 0 { Some(n_process) } else { None::<u16> }
                &&& l.output == if output > 0 { Some(output) } else { None::<u32> }
            }),
    {
        let memory_limit = match U63::try_new(memory) {
            Some(m) => m,
            None => {
                return None;
            },
        };
        Some(
            ResourceLimit {
                memory: if memory > 0 {
                    Some(memory_limit)
                } else {
                    None
                },
                cpu_time: if cpu_time > 0 {
                    Some(cpu_time)
                } else {
                    None
                },
                real_time: if real_time > 0 {
                    Some(real_time)
                } else {
                    None
                },
                stack: if stack > 0 {
                    Some(stack)
                } else {
                    None
                },
                n_process: if n_process > 0 {
                    Some(n_process)
                } else {
                    None
                },
                output: if output > 0 {
                    Some(output)
                } else {
                    None
                },
            },
        )
    }
}

/// Resources measured for one run.
#[derive(Debug)]
pub struct ResourceUsage {
    /// Peak memory usage in bytes.
    pub memory: u64,
    /// CPU time used in milliseconds.
    pub cpu_time: u32,
    /// Wall-clock time used in milliseconds.
    pub real_time: u32,
}

impl ResourceUsage {
    pub fn new(memory: u64, cpu_time: u32, real_time: u32) -> (r: ResourceUsage)
        ensures
            r.memory == memory,
            r.cpu_time == cpu_time,
            r.real_time == real_time,
    {
        ResourceUsage { memory, cpu_time, real_time }
    }
}

/// The classification of one judged run.
#[derive(Debug, Clone, Copy, PartialEq, Eq, Structural)]
pub enum JudgeStatus {
    Exited,
    Accepted,
    WrongAnswer,
    CpuTimeLimitExceeded,
    RealTimeLimitExceeded,
    MemoryLimitExceeded,
    RuntimeError,
    InternalError,
}

/// The full outcome of one judged run.
#[derive(Debug)]
pub struct JudgeResult {
    /// The status of the judged run.
    pub status: JudgeStatus,
    /// Descriptive message, e.g. internal-error details.
    pub message: Option<String>,
    /// The exit code of the process, if it exited normally.
    pub exit_code: Option<i32>,
    /// The name of the signal that terminated the process, if any.
    pub signal: Option<String>,
    /// Resource usage statistics.
    pub resource_usage: Option<ResourceUsage>,
}

/// A failure of the sandbox itself, as opposed to a verdict about the
/// untrusted program. Payloads carry the underlying detail: a message from
/// the cgroup library, or an errno value.
#[derive(Debug)]
pub enum InternalError {
    CreateCgroup(String),
    AddToCgroup(String),
    ReadCgroupMemoryStats,
    ReadCgroupCpuStats,
    CloneRunner(i32),
    Notify(i32),
    UnsupportedWait(String),
    Wait(i32),
    ReadOutput(i32),
    Io(i32),
}

/// The text that [`InternalError::message`] produces for each error kind.
pub open spec fn spec_message(e: &InternalError) -> Seq<char> {
    match e {
        InternalError::CreateCgroup(d) => "Failed to initialize cgroup: "@ + d@,
        InternalError::AddToCgroup(d) => "Failed to add process to cgroup: "@ + d@,
        InternalError::ReadCgroupMemoryStats => "Failed to read memory stats from cgroup"@,
        InternalError::ReadCgroupCpuStats => "Failed to read cpu stats from cgroup"@,
        InternalError::CloneRunner(e) => "Failed to clone: "@ + sys::errno_text(*e as int),
        InternalError::Notify(e) => "Failed to notify via channel: "@ + sys::errno_text(*e as int),
        InternalError::UnsupportedWait(s) => "Ended up in an unsupported wait status: "@ + s@,
        InternalError::Wait(_) => "Failed to wait runner process"@,
        InternalError::ReadOutput(e) => "Failed to read output: "@ + sys::errno_text(*e as int),
        InternalError::Io(e) => "I/O error occurred: "@ + sys::errno_text(*e as int),
    }
}

impl InternalError {
    /// A human-readable description of the failure.
    pub fn message(&self) -> (r: String)
        ensures
            r@ == spec_message(self),
    {
        match self {
            InternalError::CreateCgroup(d) => String::from_str(
                "Failed to initialize cgroup: ",
            ).concat(d.as_str()),
            InternalError::AddToCgroup(d) => String::from_str(
                "Failed to add process to cgroup: ",
            ).concat(d.as_str()),
            InternalError::ReadCgroupMemoryStats => String::from_str(
                "Failed to read memory stats from cgroup",
            ),
            InternalError::ReadCgroupCpuStats => String::from_str(
                "Failed to read cpu stats from cgroup",
            ),
            InternalError::CloneRunner(e) => String::from_str("Failed to clone: ").concat(
                sys::errno_desc(*e),
            ),
            InternalError::Notify(e) => String::from_str("Failed to notify via channel: ").concat(
                sys::errno_desc(*e),
            ),
            InternalError::UnsupportedWait(s) => String::from_str(
                "Ended up in an unsupported wait status: ",
            ).concat(s.as_str()),
            InternalError::Wait(_) => String::from_str("Failed to wait runner process"),
            InternalError::ReadOutput(e) => String::from_str("Failed to read output: ").concat(
                sys::errno_desc(*e),
            ),
            InternalError::Io(e) => String::from_str("I/O error occurred: ").concat(
                sys::errno_desc(*e),
            ),
        }
    }
}

} // verus!
