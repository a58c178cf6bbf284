use code_goat::seccomp::{get_whitelist, RuleCond, ScmpPolicy, WRITE_FLAGS};

#[test]
fn unsafe_policy_has_no_rules() {
    assert!(get_whitelist(&ScmpPolicy::Unsafe, 42).is_empty());
}

#[test]
fn strict_policy_lists_common_rules_and_conditions() {
    let rules = get_whitelist(&ScmpPolicy::Strict, 0xdead_beef);
    assert_eq!(rules.len(), 23 + 4);

    let names: Vec<&str> = rules.iter().map(|r| r.name).collect();
    assert_eq!(&names[..4], &["brk", "close", "exit", "exit_group"]);
    assert!(names.contains(&"read"));
    assert!(names.contains(&"write"));
    assert!(!names.contains(&"fcntl"));
    assert!(!names.contains(&"socket"));

    for r in &rules[..23] {
        assert_eq!(r.cond, RuleCond::Always);
    }
    assert_eq!(rules[23].name, "execve");
    assert_eq!(rules[23].cond, RuleCond::ArgEquals(0, 0xdead_beef));
    assert_eq!(rules[24].name, "open");
    assert_eq!(rules[24].cond, RuleCond::ArgMaskedZero(1, WRITE_FLAGS));
    assert_eq!(rules[25].name, "openat");
    assert_eq!(rules[25].cond, RuleCond::ArgMaskedZero(1, WRITE_FLAGS));
    assert_eq!(rules[26].name, "prlimit64");
    assert_eq!(rules[26].cond, RuleCond::ArgEquals(2, 0));
}

#[test]
fn python_policy_adds_the_python_rules() {
    let rules = get_whitelist(&ScmpPolicy::Python, 7);
    assert_eq!(rules.len(), 23 + 4 + 12);
    let names: Vec<&str> = rules.iter().map(|r| r.name).collect();
    assert!(names.contains(&"fcntl"));
    assert!(names.contains(&"socket"));
    assert!(names.contains(&"connect"));
    assert!(names.contains(&"rt_sigaction"));
    for r in &rules[27..] {
        assert_eq!(r.cond, RuleCond::Always);
    }
    // The conditional rules are the same as under Strict.
    assert_eq!(rules[23].cond, RuleCond::ArgEquals(0, 7));
}

#[test]
fn write_flags_are_the_writable_open_modes() {
    // O_WRONLY | O_RDWR on Linux.
    assert_eq!(WRITE_FLAGS, 1 | 2);
}

#[test]
fn policy_names_parse_case_insensitively() {
    assert_eq!(ScmpPolicy::from_name("unsafe"), Some(ScmpPolicy::Unsafe));
    assert_eq!(ScmpPolicy::from_name("UNSAFE"), Some(ScmpPolicy::Unsafe));
    assert_eq!(ScmpPolicy::from_name("Strict"), Some(ScmpPolicy::Strict));
    assert_eq!(ScmpPolicy::from_name("sTrIcT"), Some(ScmpPolicy::Strict));
    assert_eq!(ScmpPolicy::from_name("python"), Some(ScmpPolicy::Python));
    assert_eq!(ScmpPolicy::from_name("java"), None);
    assert_eq!(ScmpPolicy::from_name(""), None);
}

#[test]
fn policy_names_round_trip() {
    for p in [ScmpPolicy::Unsafe, ScmpPolicy::Strict, ScmpPolicy::Python] {
        assert_eq!(ScmpPolicy::from_name(p.name()), Some(p));
    }
}
