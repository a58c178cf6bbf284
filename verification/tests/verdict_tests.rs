use code_goat::models::{JudgeStatus, ResourceLimit, ResourceUsage, U63};
use code_goat::request::JudgeSpec;
use code_goat::seccomp::ScmpPolicy;
use code_goat::verdict::get_judge_status;

fn spec_with(limits: ResourceLimit) -> JudgeSpec {
    JudgeSpec::try_new(
        "/bin/true",
        None,
        None,
        None,
        None,
        vec![],
        vec![],
        ScmpPolicy::Strict,
        limits,
    )
    .unwrap()
}

fn no_limits() -> ResourceLimit {
    ResourceLimit::new(None, None, None, None, None, None)
}

#[test]
fn clean_exit_without_files_is_exited() {
    // Mirrors a run of a program that just exits zero, with no limits
    // and no files configured.
    let spec = spec_with(no_limits());
    let usage = ResourceUsage::new(1024, 5, 12);
    let st = get_judge_status(&spec, &usage, JudgeStatus::Exited).unwrap();
    assert_eq!(st, JudgeStatus::Exited);
}

#[test]
fn nonzero_exit_keeps_runtime_error_default() {
    // Mirrors a run that was killed or exited non-zero.
    let spec = spec_with(no_limits());
    let usage = ResourceUsage::new(1024, 5, 12);
    let st = get_judge_status(&spec, &usage, JudgeStatus::RuntimeError).unwrap();
    assert_eq!(st, JudgeStatus::RuntimeError);
}

#[test]
fn cpu_time_over_limit_wins() {
    // Mirrors a tight busy loop under cpu_time_ms = 500.
    let spec = spec_with(ResourceLimit::new(None, Some(500), Some(5000), None, None, None));
    let usage = ResourceUsage::new(1024, 612, 640);
    let st = get_judge_status(&spec, &usage, JudgeStatus::RuntimeError).unwrap();
    assert_eq!(st, JudgeStatus::CpuTimeLimitExceeded);
}

#[test]
fn zero_cpu_counter_is_not_trusted() {
    let spec = spec_with(ResourceLimit::new(None, Some(0), None, None, None, None));
    let usage = ResourceUsage::new(1024, 0, 12);
    let st = get_judge_status(&spec, &usage, JudgeStatus::Exited).unwrap();
    assert_eq!(st, JudgeStatus::Exited);
}

#[test]
fn real_time_over_limit_detected() {
    // Mirrors a program that sleeps far past real_time_ms = 200.
    let spec = spec_with(ResourceLimit::new(None, None, Some(200), None, None, None));
    let usage = ResourceUsage::new(1024, 3, 231);
    let st = get_judge_status(&spec, &usage, JudgeStatus::RuntimeError).unwrap();
    assert_eq!(st, JudgeStatus::RealTimeLimitExceeded);
}

#[test]
fn memory_over_limit_detected() {
    // Mirrors a program that allocates 100 MiB under an 8 MiB limit:
    // the peak counter ends above the limit, so the verdict is the
    // memory one.
    let eight_mib = U63::try_new(8 * 1024 * 1024).unwrap();
    let spec = spec_with(ResourceLimit::new(Some(eight_mib), None, None, None, None, None));
    let usage = ResourceUsage::new(9 * 1024 * 1024, 40, 100);
    let st = get_judge_status(&spec, &usage, JudgeStatus::Exited).unwrap();
    assert_eq!(st, JudgeStatus::MemoryLimitExceeded);
}

#[test]
fn memory_at_limit_is_not_exceeded() {
    let limit = U63::try_new(4096).unwrap();
    let spec = spec_with(ResourceLimit::new(Some(limit), None, None, None, None, None));
    let usage = ResourceUsage::new(4096, 1, 1);
    let st = get_judge_status(&spec, &usage, JudgeStatus::Exited).unwrap();
    assert_eq!(st, JudgeStatus::Exited);
}

#[test]
fn cpu_rule_comes_before_real_and_memory() {
    let limit = U63::try_new(1).unwrap();
    let spec = spec_with(ResourceLimit::new(Some(limit), Some(10), Some(10), None, None, None));
    let usage = ResourceUsage::new(100, 50, 50);
    let st = get_judge_status(&spec, &usage, JudgeStatus::Exited).unwrap();
    assert_eq!(st, JudgeStatus::CpuTimeLimitExceeded);
}

#[test]
fn equal_output_and_answer_accepts() {
    // Mirrors a program whose output file matches the answer file.
    let spec = JudgeSpec::try_new(
        "/bin/true",
        None,
        Some("/etc/os-release"),
        Some("/etc/os-release"),
        None,
        vec![],
        vec![],
        ScmpPolicy::Strict,
        no_limits(),
    )
    .unwrap();
    let usage = ResourceUsage::new(1024, 5, 12);
    let st = get_judge_status(&spec, &usage, JudgeStatus::Exited).unwrap();
    assert_eq!(st, JudgeStatus::Accepted);
}

#[test]
fn different_output_and_answer_is_wrong() {
    let spec = JudgeSpec::try_new(
        "/bin/true",
        None,
        Some("/etc/hostname"),
        Some("/etc/os-release"),
        None,
        vec![],
        vec![],
        ScmpPolicy::Strict,
        no_limits(),
    )
    .unwrap();
    let usage = ResourceUsage::new(1024, 5, 12);
    let st = get_judge_status(&spec, &usage, JudgeStatus::Exited).unwrap();
    assert_eq!(st, JudgeStatus::WrongAnswer);
}

#[test]
fn no_comparison_after_a_signal() {
    // Output and answer are both named, but the run did not exit
    // normally: the default stands and no file is read.
    let spec = JudgeSpec::try_new(
        "/bin/true",
        None,
        Some("no_such_answer_file"),
        Some("no_such_output_file"),
        None,
        vec![],
        vec![],
        ScmpPolicy::Strict,
        no_limits(),
    )
    .unwrap();
    let usage = ResourceUsage::new(1024, 5, 12);
    let st = get_judge_status(&spec, &usage, JudgeStatus::RuntimeError).unwrap();
    assert_eq!(st, JudgeStatus::RuntimeError);
}
