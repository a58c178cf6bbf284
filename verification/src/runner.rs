//! The runner child's setup sequence and its ordering discipline.
//!
//! Inside the cloned child, strictly in order: mount sandbox, resource
//! limits, stream redirection, seccomp filter — then one blocking read
//! on the setup pipe, and only after the judger's go byte arrives does
//! the child reach `execve`. [`prepare_runner`] performs the mount,
//! rlimit and redirection steps; the unverified shell around the
//! library installs the compiled filter, performs the read and the
//! `execve`. The event model below states the ordering law the whole
//! sequence obeys.

use vstd::prelude::*;
use vstd::string::StringExecFns;
use crate::mount;
use crate::mount::MountError;
use crate::redirect;
use crate::request::JudgeSpec;
use crate::rlimit;

verus! {

/// The events of one runner child's life, in the order they may
/// happen: the sandbox setup finished, the judger's go byte arrived,
/// the untrusted program was handed the process, or a step failed and
/// the child aborted.
#[derive(Debug, Clone, Copy, PartialEq, Eq, Structural)]
pub enum RunnerEvent {
    SetupDone,
    GoReceived,
    Exec,
    Aborted,
}

/// The phases a runner child moves through.
#[derive(Debug, Clone, Copy, PartialEq, Eq, Structural)]
pub enum RunnerPhase {
    SettingUp,
    AwaitingGo,
    Running,
    Failed,
}

/// The runner's transition relation: which event may happen in which
/// phase, and where it leads. `Exec` is possible only in `Running`,
/// which is reached only by `GoReceived`, which in turn is possible
/// only after `SetupDone`.
pub open spec fn runner_step(phase: RunnerPhase, ev: RunnerEvent) -> Option<RunnerPhase> {
    match (phase, ev) {
        (RunnerPhase::SettingUp, RunnerEvent::SetupDone) => Some(RunnerPhase::AwaitingGo),
        (RunnerPhase::SettingUp, RunnerEvent::Aborted) => Some(RunnerPhase::Failed),
        (RunnerPhase::AwaitingGo, RunnerEvent::GoReceived) => Some(RunnerPhase::Running),
        (RunnerPhase::AwaitingGo, RunnerEvent::Aborted) => Some(RunnerPhase::Failed),
        (RunnerPhase::Running, RunnerEvent::Exec) => Some(RunnerPhase::Running),
        (RunnerPhase::Running, RunnerEvent::Aborted) => Some(RunnerPhase::Failed),
        _ => None,
    }
}

/// The phase after a sequence of events, starting from `SettingUp`;
/// nothing if some event was impossible in its phase.
pub open spec fn trace_phase(t: Seq<RunnerEvent>) -> Option<RunnerPhase>
    decreases t.len(),
{
    if t.len() == 0 {
        Some(RunnerPhase::SettingUp)
    } else {
        match trace_phase(t.drop_last()) {
            Some(p) => runner_step(p, t.last()),
            None => None,
        }
    }
}

/// Whether a sequence of events is a possible life of a runner child.
pub open spec fn valid_runner_trace(t: Seq<RunnerEvent>) -> bool {
    trace_phase(t) is Some
}

/// Every prefix of a possible life is possible.
proof fn lemma_trace_prefix(t: Seq<RunnerEvent>, n: int)
    requires
        valid_runner_trace(t),
        0 <= n <= t.len(),
    ensures
        valid_runner_trace(t.take(n)),
    decreases t.len() - n,
{
    if n < t.len() {
        lemma_trace_prefix(t.drop_last(), n);
        assert(t.drop_last().take(n) =~= t.take(n));
    } else {
        assert(t.take(n) =~= t);
    }
}

/// A run that reached the `Running` phase received the go byte.
proof fn lemma_running_has_go(t: Seq<RunnerEvent>)
    requires
        trace_phase(t) == Some(RunnerPhase::Running),
    ensures
        exists|j: int| 0 <= j < t.len() && t[j] == RunnerEvent::GoReceived,
    decreases t.len(),
{
    if t.last() == RunnerEvent::GoReceived {
        assert(t[t.len() - 1] == RunnerEvent::GoReceived);
    } else {
        lemma_running_has_go(t.drop_last());
        let j = choose|j: int|
            0 <= j < t.drop_last().len() && t.drop_last()[j] == RunnerEvent::GoReceived;
        assert(t[j] == RunnerEvent::GoReceived);
    }
}

/// A run that reached the `AwaitingGo` or `Running` phase finished its
/// setup first.
proof fn lemma_past_setup_has_setup_done(t: Seq<RunnerEvent>)
    requires
        trace_phase(t) == Some(RunnerPhase::AwaitingGo) || trace_phase(t) == Some(
            RunnerPhase::Running,
        ),
    ensures
        exists|j: int| 0 <= j < t.len() && t[j] == RunnerEvent::SetupDone,
    decreases t.len(),
{
    if t.last() == RunnerEvent::SetupDone {
        assert(t[t.len() - 1] == RunnerEvent::SetupDone);
    } else {
        lemma_past_setup_has_setup_done(t.drop_last());
        let j = choose|j: int|
            0 <= j < t.drop_last().len() && t.drop_last()[j] == RunnerEvent::SetupDone;
        assert(t[j] == RunnerEvent::SetupDone);
    }
}

/// The ordering law of the runner: in every possible life, the
/// untrusted program starts only after the judger's go byte, and the
/// go byte is read only after every sandbox step succeeded. So no user
/// code runs before resource accounting and the wall-clock timer are
/// armed.
pub proof fn lemma_exec_follows_go(t: Seq<RunnerEvent>, i: int)
    requires
        valid_runner_trace(t),
        0 <= i < t.len(),
        t[i] == RunnerEvent::Exec,
    ensures
        exists|j: int| 0 <= j < i && t[j] == RunnerEvent::GoReceived,
        exists|k: int| 0 <= k < i && t[k] == RunnerEvent::SetupDone,
{
    lemma_trace_prefix(t, i + 1);
    let p = t.take(i + 1);
    assert(p.drop_last() =~= t.take(i));
    assert(p.last() == RunnerEvent::Exec);
    lemma_trace_prefix(t, i);
    assert(trace_phase(t.take(i)) == Some(RunnerPhase::Running));
    lemma_running_has_go(t.take(i));
    let j = choose|j: int| 0 <= j < i && t.take(i)[j] == RunnerEvent::GoReceived;
    assert(t[j] == RunnerEvent::GoReceived);
    lemma_trace_prefix(t, j);
    assert(t.take(j + 1).drop_last() =~= t.take(j));
    lemma_trace_prefix(t, j + 1);
    assert(trace_phase(t.take(j)) == Some(RunnerPhase::AwaitingGo));
    lemma_past_setup_has_setup_done(t.take(j));
    let k = choose|k: int| 0 <= k < j && t.take(j)[k] == RunnerEvent::SetupDone;
    assert(t[k] == RunnerEvent::SetupDone);
}

/// Why the runner child aborted: a line for the abort pipe and the
/// errno value it exits with.
#[derive(Debug)]
pub struct AbortReason {
    pub message: String,
    pub errno: i32,
}

/// Run the sandbox steps of the child, strictly in order: mount
/// sandbox, resource limits, stream redirection. The seccomp filter is
/// compiled by the library ([`crate::seccomp::get_whitelist`]) but
/// installed afterwards by the shell, so that setup itself is not
/// constrained by it. On the first failure the step's reason is
/// returned, to be written to the abort pipe before the child exits
/// non-zero.
///
/// `workspace` is the writable workspace path, if one is configured.
pub fn prepare_runner(spec: &JudgeSpec, workspace: Option<&str>) -> (r: Result<(), AbortReason>)
    ensures
        r matches Err(a) ==> a.errno != 0,
{
    if let Err(e) = mount::mount_sandbox(workspace) {
        let errno = match e {
            MountError::MakePrivate(n) => n,
            MountError::RemountRoot(n) => n,
            MountError::MaskSensitive(n) => n,
            MountError::Workspace(n) => n,
        };
        return Err(
            AbortReason {
                message: String::from_str("Failed to mount user namespace"),
                errno,
            },
        );
    }
    if let Err(errno) = rlimit::set_limit_to_sandbox(&spec.resource_limit) {
        return Err(
            AbortReason { message: String::from_str("Failed to set resource limit"), errno },
        );
    }
    if let Err(e) = redirect::redirect(spec) {
        return Err(AbortReason { message: e.context, errno: e.errno });
    }
    Ok(())
}

} // verus!
