//! The verdict resolver: maps the runner's exit, its measured resource
//! usage, and the output comparison to exactly one verdict.
//!
//! The rules are ordered; the first that matches wins: CPU time over the
//! limit, wall-clock time over the limit, memory over the limit, then —
//! for a normal exit with both an output and an answer file — the output
//! comparison, and otherwise the default carried in from the wait status.

use vstd::prelude::*;
use vstd::string::StringExecFns;
use crate::cgroup::CgroupSandbox;
use crate::compare;
use crate::models::{InternalError, JudgeResult, JudgeStatus, ResourceLimit, ResourceUsage};
use crate::models::spec_message;
use crate::request::JudgeSpec;

verus! {

/// CPU time exceeded its limit: the counter moved and lies above the
/// limit. A zero counter is not trusted (the cgroup may have reported
/// nothing).
pub open spec fn cpu_exceeded(limits: &ResourceLimit, usage: &ResourceUsage) -> bool {
    limits.cpu_time matches Some(l) && usage.cpu_time > 0 && usage.cpu_time > l
}

/// Wall-clock time exceeded its limit.
pub open spec fn real_exceeded(limits: &ResourceLimit, usage: &ResourceUsage) -> bool {
    limits.real_time matches Some(l) && usage.real_time > l
}

/// Peak memory exceeded its limit.
pub open spec fn mem_exceeded(limits: &ResourceLimit, usage: &ResourceUsage) -> bool {
    limits.memory matches Some(l) && usage.memory > l.spec_value()
}

/// The comparison branch applies when the runner exited normally and
/// both an output path and an answer path are given.
pub open spec fn wants_output_check(spec: &JudgeSpec, default_status: JudgeStatus) -> bool {
    default_status == JudgeStatus::Exited && spec.output_path is Some && spec.answer_path is Some
}

/// Which verdicts the ordered rules allow, given the usage and the
/// default. Everywhere but in the output-comparison branch exactly one
/// verdict is allowed; there, the file contents decide between
/// `Accepted` and `WrongAnswer`.
pub open spec fn status_matches(
    spec: &JudgeSpec,
    usage: &ResourceUsage,
    default_status: JudgeStatus,
    st: JudgeStatus,
) -> bool {
    if cpu_exceeded(&spec.resource_limit, usage) {
        st == JudgeStatus::CpuTimeLimitExceeded
    } else if real_exceeded(&spec.resource_limit, usage) {
        st == JudgeStatus::RealTimeLimitExceeded
    } else if mem_exceeded(&spec.resource_limit, usage) {
        st == JudgeStatus::MemoryLimitExceeded
    } else if wants_output_check(spec, default_status) {
        st == JudgeStatus::Accepted || st == JudgeStatus::WrongAnswer
    } else {
        st == default_status
    }
}

/// The ordered rules always allow a verdict, and allow only one, except
/// in the output-comparison branch, where the two possible verdicts are
/// `Accepted` and `WrongAnswer` and the file contents decide.
pub proof fn lemma_verdict_total(spec: &JudgeSpec, usage: &ResourceUsage, default_status: JudgeStatus)
    ensures
        exists|st: JudgeStatus| status_matches(spec, usage, default_status, st),
        forall|st1: JudgeStatus, st2: JudgeStatus|
            status_matches(spec, usage, default_status, st1) && status_matches(
                spec,
                usage,
                default_status,
                st2,
            ) ==> st1 == st2 || (st1 == JudgeStatus::Accepted && st2 == JudgeStatus::WrongAnswer)
                || (st1 == JudgeStatus::WrongAnswer && st2 == JudgeStatus::Accepted),
{
    if cpu_exceeded(&spec.resource_limit, usage) {
        assert(status_matches(spec, usage, default_status, JudgeStatus::CpuTimeLimitExceeded));
    } else if real_exceeded(&spec.resource_limit, usage) {
        assert(status_matches(spec, usage, default_status, JudgeStatus::RealTimeLimitExceeded));
    } else if mem_exceeded(&spec.resource_limit, usage) {
        assert(status_matches(spec, usage, default_status, JudgeStatus::MemoryLimitExceeded));
    } else if wants_output_check(spec, default_status) {
        assert(status_matches(spec, usage, default_status, JudgeStatus::Accepted));
    } else {
        assert(status_matches(spec, usage, default_status, default_status));
    }
}

/// Apply the ordered verdict rules. The output comparison runs only in
/// its branch; a failure to read either file surfaces as the error.
pub fn get_judge_status(spec: &JudgeSpec, resource_usage: &ResourceUsage, default_status: JudgeStatus)
    -> (r: Result<JudgeStatus, InternalError>)
    ensures
        r matches Ok(st) ==> status_matches(spec, resource_usage, default_status, st),
        r matches Err(e) ==> e is ReadOutput && !cpu_exceeded(&spec.resource_limit, resource_usage)
            && !real_exceeded(&spec.resource_limit, resource_usage) && !mem_exceeded(
            &spec.resource_limit,
            resource_usage,
        ) && wants_output_check(spec, default_status),
{
    let cpu_over = match spec.resource_limit.cpu_time {
        Some(limit) => resource_usage.cpu_time > 0 && resource_usage.cpu_time > limit,
        None => false,
    };
    if cpu_over {
        return Ok(JudgeStatus::CpuTimeLimitExceeded);
    }
    let real_over = match spec.resource_limit.real_time {
        Some(limit) => resource_usage.real_time > limit,
        None => false,
    };
    if real_over {
        return Ok(JudgeStatus::RealTimeLimitExceeded);
    }
    let mem_over = match &spec.resource_limit.memory {
        Some(limit) => resource_usage.memory > limit.to_u64(),
        None => false,
    };
    if mem_over {
        return Ok(JudgeStatus::MemoryLimitExceeded);
    }
    if default_status == JudgeStatus::Exited {
        if let (Some(output), Some(answer)) = (&spec.output_path, &spec.answer_path) {
            return match compare::is_accepted(output.as_str(), answer.as_str()) {
                Ok(true) => Ok(JudgeStatus::Accepted),
                Ok(false) => Ok(JudgeStatus::WrongAnswer),
                Err(e) => Err(e),
            };
        }
    }
    Ok(default_status)
}

/// How the wait on the runner ended, as the judger sees it: a normal
/// exit with a code, a termination or stop by a signal (carrying the
/// signal's name), a wait status the judger does not model, or a failed
/// wait call (carrying the errno value).
#[derive(Debug)]
pub enum WaitOutcome {
    Exited(i32),
    Signaled(String),
    Stopped(String),
    Unsupported(String),
    WaitFailed(i32),
}

/// The fixed message of a run that exited non-zero without aborting.
pub open spec fn spec_nonzero_exit_message() -> Seq<char> {
    "Runner exited with non-zero exit code."@
}

/// Resolve the outcome of the wait on the runner into a result.
///
/// A normal exit first consults the abort pipe: a non-empty message
/// means the runner failed a sandbox step, which is an internal error,
/// not a verdict about the program. A non-zero exit without an abort
/// message is a runtime error. Otherwise the cgroup counters are read
/// and the ordered verdict rules decide. A signal leads to the same
/// rules with `RuntimeError` as the default. An unmodelled wait status
/// or a failed wait is an internal error.
pub fn judge_wait_outcome(
    spec: &JudgeSpec,
    cg_sandbox: &CgroupSandbox,
    outcome: WaitOutcome,
    aborted_message: String,
    real_time_ms: u32,
) -> (r: Result<JudgeResult, InternalError>)
    ensures
        r matches Ok(res) ==> match outcome {
            WaitOutcome::Exited(code) => {
                if aborted_message@.len() > 0 {
                    &&& res.status == JudgeStatus::InternalError
                    &&& res.message matches Some(m) && m@ == aborted_message@
                    &&& res.exit_code == Some(code)
                    &&& res.signal is None
                    &&& res.resource_usage is None
                } else if code != 0 {
                    &&& res.status == JudgeStatus::RuntimeError
                    &&& res.message matches Some(m) && m@ == spec_nonzero_exit_message()
                    &&& res.exit_code == Some(code)
                    &&& res.signal is None
                    &&& res.resource_usage is None
                } else {
                    &&& res.resource_usage matches Some(u) && status_matches(
                        spec,
                        &u,
                        JudgeStatus::Exited,
                        res.status,
                    ) && u.real_time == real_time_ms
                    &&& res.message is None
                    &&& res.exit_code == Some(code)
                    &&& res.signal is None
                }
            },
            WaitOutcome::Signaled(sig) | WaitOutcome::Stopped(sig) => {
                &&& res.resource_usage matches Some(u) && status_matches(
                    spec,
                    &u,
                    JudgeStatus::RuntimeError,
                    res.status,
                ) && u.real_time == real_time_ms
                &&& res.message is None
                &&& res.exit_code is None
                &&& res.signal matches Some(g) && g@ == sig@
            },
            WaitOutcome::Unsupported(_) => false,
            WaitOutcome::WaitFailed(_) => false,
        },
        r matches Err(e) ==> match outcome {
            WaitOutcome::Exited(code) => aborted_message@.len() == 0 && code == 0 && (
            e is ReadCgroupMemoryStats || e is ReadCgroupCpuStats || e is ReadOutput),
            WaitOutcome::Signaled(_) | WaitOutcome::Stopped(_) => e is ReadCgroupMemoryStats
                || e is ReadCgroupCpuStats || e is ReadOutput,
            WaitOutcome::Unsupported(s) => (e matches InternalError::UnsupportedWait(m) && m@
                == s@),
            WaitOutcome::WaitFailed(errno) => e matches InternalError::Wait(v) && v == errno,
        },
{
    match outcome {
        WaitOutcome::Exited(exit_code) => {
            if !aborted_message.as_str().is_empty() {
                return Ok(
                    JudgeResult {
                        status: JudgeStatus::InternalError,
                        message: Some(aborted_message),
                        exit_code: Some(exit_code),
                        signal: None,
                        resource_usage: None,
                    },
                );
            }
            if exit_code != 0 {
                return Ok(
                    JudgeResult {
                        status: JudgeStatus::RuntimeError,
                        message: Some(String::from_str("Runner exited with non-zero exit code.")),
                        exit_code: Some(exit_code),
                        signal: None,
                        resource_usage: None,
                    },
                );
            }
            let resource_usage = match cg_sandbox.read_usage(real_time_ms) {
                Ok(u) => u,
                Err(e) => {
                    return Err(e);
                },
            };
            let status = match get_judge_status(spec, &resource_usage, JudgeStatus::Exited) {
                Ok(st) => st,
                Err(e) => {
                    return Err(e);
                },
            };
            Ok(
                JudgeResult {
                    status,
                    message: None,
                    exit_code: Some(exit_code),
                    signal: None,
                    resource_usage: Some(resource_usage),
                },
            )
        },
        WaitOutcome::Signaled(signal) | WaitOutcome::Stopped(signal) => {
            let resource_usage = match cg_sandbox.read_usage(real_time_ms) {
                Ok(u) => u,
                Err(e) => {
                    return Err(e);
                },
            };
            let status = match get_judge_status(spec, &resource_usage, JudgeStatus::RuntimeError) {
                Ok(st) => st,
                Err(e) => {
                    return Err(e);
                },
            };
            Ok(
                JudgeResult {
                    status,
                    message: None,
                    exit_code: None,
                    signal: Some(signal),
                    resource_usage: Some(resource_usage),
                },
            )
        },
        WaitOutcome::Unsupported(ws) => Err(InternalError::UnsupportedWait(ws)),
        WaitOutcome::WaitFailed(errno) => Err(InternalError::Wait(errno)),
    }
}

/// The result of a judgment that failed inside the sandbox itself:
/// status `InternalError`, carrying the error's message.
pub fn internal_error_result(e: &InternalError) -> (r: JudgeResult)
    ensures
        r.status == JudgeStatus::InternalError,
        r.message matches Some(m) && m@ == spec_message(e),
        r.exit_code is None,
        r.signal is None,
        r.resource_usage is None,
{
    JudgeResult {
        status: JudgeStatus::InternalError,
        message: Some(e.message()),
        exit_code: None,
        signal: None,
        resource_usage: None,
    }
}

} // verus!
