use code_goat::models::ResourceLimit;
use code_goat::request::JudgeSpec;
use code_goat::seccomp::ScmpPolicy;

fn no_limits() -> ResourceLimit {
    ResourceLimit::new(None, None, None, None, None, None)
}

fn try_new_spec(args_include_exe: bool) {
    let exe_path = "/usr/bin/echo";
    let expected = vec![exe_path, "hello", "world"];
    let args = if args_include_exe {
        expected.clone()
    } else {
        expected[1..].to_vec()
    };

    let spec = JudgeSpec::try_new(
        exe_path,
        None,
        None,
        None,
        None,
        args,
        vec![],
        ScmpPolicy::Unsafe,
        no_limits(),
    )
    .expect("Cstring conversion failed.");

    let expected: Vec<Vec<u8>> = expected.iter().map(|&arg| arg.as_bytes().to_vec()).collect();
    assert_eq!(spec.args, expected);
}

#[test]
fn try_new_with_exe_in_args() {
    try_new_spec(true);
}

#[test]
fn try_new_without_exe_in_args() {
    try_new_spec(false);
}

fn from_c_spec(args_include_exe: bool) {
    let exe_path = b"/usr/bin/echo".to_vec();
    let expected: Vec<Vec<u8>> = vec![exe_path.clone(), b"hello".to_vec(), b"world".to_vec()];
    let args = if args_include_exe {
        expected.clone()
    } else {
        expected[1..].to_vec()
    };

    let spec = JudgeSpec::from_c_spec(
        exe_path,
        None,
        None,
        None,
        None,
        args,
        vec![],
        ScmpPolicy::Unsafe,
        no_limits(),
    );
    assert_eq!(spec.args, expected);
}

#[test]
fn from_c_spec_with_exe_in_args() {
    from_c_spec(true);
}

#[test]
fn from_c_spec_without_exe_in_args() {
    from_c_spec(false);
}

#[test]
fn try_new_rejects_interior_nul_bytes() {
    assert!(JudgeSpec::try_new(
        "/bin/e\0cho",
        None,
        None,
        None,
        None,
        vec![],
        vec![],
        ScmpPolicy::Strict,
        no_limits(),
    )
    .is_err());
    assert!(JudgeSpec::try_new(
        "/bin/echo",
        None,
        None,
        None,
        None,
        vec!["a\0b"],
        vec![],
        ScmpPolicy::Strict,
        no_limits(),
    )
    .is_err());
    assert!(JudgeSpec::try_new(
        "/bin/echo",
        None,
        None,
        None,
        None,
        vec![],
        vec!["K=\0"],
        ScmpPolicy::Strict,
        no_limits(),
    )
    .is_err());
}

#[test]
fn try_new_keeps_paths_and_envs() {
    let spec = JudgeSpec::try_new(
        "/bin/cat",
        Some("/tmp/in"),
        Some("/tmp/ans"),
        Some("/tmp/out"),
        Some("/tmp/err"),
        vec![],
        vec!["PATH=/usr/bin", "HOME=/tmp"],
        ScmpPolicy::Python,
        no_limits(),
    )
    .unwrap();
    assert_eq!(spec.input_path.as_deref(), Some("/tmp/in"));
    assert_eq!(spec.answer_path.as_deref(), Some("/tmp/ans"));
    assert_eq!(spec.output_path.as_deref(), Some("/tmp/out"));
    assert_eq!(spec.error_path.as_deref(), Some("/tmp/err"));
    assert_eq!(spec.envs, vec![b"PATH=/usr/bin".to_vec(), b"HOME=/tmp".to_vec()]);
    assert_eq!(spec.scmp_policy, ScmpPolicy::Python);
    assert_eq!(spec.args, vec![b"/bin/cat".to_vec()]);
}
