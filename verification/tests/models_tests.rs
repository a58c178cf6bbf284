use code_goat::models::{JudgeStatus, ResourceLimit, ResourceUsage, U63, U63_MAX_VALUE};
use code_goat::models::{wrap_number, InternalError};

#[test]
fn saturating_add_within_bounds() {
    let a = 1;
    let b = 2;
    let res = U63::saturating_new(a).saturating_add(b);
    assert_eq!(res.to_u64(), a + b);
}

#[test]
fn saturating_add_exceeds_bounds() {
    let a = U63::max_value().to_u64();
    let b = u64::MAX;
    let res = U63::saturating_new(a).saturating_add(b);
    assert_eq!(res.to_u64(), U63::max_value().to_u64());
}

#[test]
fn max_value_is_sixty_three_bits() {
    assert_eq!(U63::max_value().to_u64(), 0x7fff_ffff_ffff_ffff);
    assert_eq!(U63::max_value().to_u64(), U63_MAX_VALUE);
}

#[test]
fn does_fit_at_the_boundary() {
    assert!(U63::does_fit(U63_MAX_VALUE));
    assert!(!U63::does_fit(U63_MAX_VALUE + 1));
    assert!(U63::does_fit(0));
}

#[test]
fn try_new_rejects_only_oversized_values() {
    assert_eq!(U63::try_new(123).map(|u| u.to_u64()), Some(123));
    assert_eq!(U63::try_new(U63_MAX_VALUE).map(|u| u.to_u64()), Some(U63_MAX_VALUE));
    assert!(U63::try_new(U63_MAX_VALUE + 1).is_none());
}

#[test]
fn to_i64_is_never_negative() {
    assert_eq!(U63::max_value().to_i64(), i64::MAX);
    assert_eq!(U63::saturating_new(7).to_i64(), 7);
}

#[test]
fn wrap_number_maps_zero_to_unlimited() {
    assert_eq!(wrap_number(0), None);
    assert_eq!(wrap_number(1), Some(1));
    assert_eq!(wrap_number(u64::MAX), Some(u64::MAX));
}

#[test]
fn from_raw_wraps_each_field() {
    let l = ResourceLimit::from_raw(1024, 0, 250, 0, 4, 9000).unwrap();
    assert_eq!(l.memory.map(|m| m.to_u64()), Some(1024));
    assert_eq!(l.cpu_time, None);
    assert_eq!(l.real_time, Some(250));
    assert_eq!(l.stack, None);
    assert_eq!(l.n_process, Some(4));
    assert_eq!(l.output, Some(9000));
}

#[test]
fn from_raw_rejects_oversized_memory() {
    assert!(ResourceLimit::from_raw(U63_MAX_VALUE + 1, 1, 1, 1, 1, 1).is_none());
}

#[test]
fn resource_usage_new_keeps_fields() {
    let u = ResourceUsage::new(4096, 120, 340);
    assert_eq!(u.memory, 4096);
    assert_eq!(u.cpu_time, 120);
    assert_eq!(u.real_time, 340);
}

#[test]
fn judge_status_values_are_distinct() {
    assert_ne!(JudgeStatus::Exited, JudgeStatus::Accepted);
    assert_ne!(JudgeStatus::Accepted, JudgeStatus::WrongAnswer);
    assert_ne!(JudgeStatus::RuntimeError, JudgeStatus::InternalError);
}

#[test]
fn internal_error_messages_name_the_failure() {
    assert_eq!(
        InternalError::CreateCgroup("no hierarchy".to_string()).message(),
        "Failed to initialize cgroup: no hierarchy"
    );
    assert_eq!(
        InternalError::ReadCgroupMemoryStats.message(),
        "Failed to read memory stats from cgroup"
    );
    assert_eq!(
        InternalError::ReadCgroupCpuStats.message(),
        "Failed to read cpu stats from cgroup"
    );
    assert_eq!(InternalError::Wait(10).message(), "Failed to wait runner process");
    // The errno text comes from the system-call layer's description
    // table; errno 2 is ENOENT.
    assert_eq!(
        InternalError::CloneRunner(2).message(),
        "Failed to clone: No such file or directory"
    );
}
