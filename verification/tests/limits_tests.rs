use code_goat::cgroup::{memory_hard_limit_for, parse_cpu_time_ms, MEBI_BYTE};
use code_goat::text::{parse_u32_dec, tokens_exec};
use code_goat::models::{U63, U63_MAX_VALUE};
use code_goat::rlimit::{calculate_timeout, rlimit_cpu_seconds, rlimit_output_bytes, rlimit_stack_bytes};

#[test]
fn timeout_margin_is_five_percent_or_the_floor() {
    // 5% of 1000 is 50, above the floor of 10.
    assert_eq!(calculate_timeout(1000, 10), 1050);
    // 5% of 100 is 5, below the floor of 10.
    assert_eq!(calculate_timeout(100, 10), 110);
    // Exactly at the floor the floor wins (margin is not larger).
    assert_eq!(calculate_timeout(200, 10), 210);
    assert_eq!(calculate_timeout(0, 10), 10);
}

#[test]
fn cpu_rlimit_rounds_up_with_at_least_one_second() {
    // 1500 ms widens to 2500 ms, which is 3 seconds rounded up;
    // that is one more than ceil(1500 / 1000) = 2.
    assert_eq!(rlimit_cpu_seconds(1500), 3);
    // 40000 ms widens by 2000 ms to exactly 42 seconds.
    assert_eq!(rlimit_cpu_seconds(40000), 42);
    // Tiny limits still get a full second of margin.
    assert_eq!(rlimit_cpu_seconds(1), 2);
    assert_eq!(rlimit_cpu_seconds(0), 1);
}

#[test]
fn stack_and_output_margins() {
    assert_eq!(rlimit_stack_bytes(0), 1024 * 1024);
    assert_eq!(rlimit_stack_bytes(4096), 4096 + 1024 * 1024);
    assert_eq!(rlimit_output_bytes(0), 1_000_000);
    assert_eq!(rlimit_output_bytes(5000), 1_005_000);
}

#[test]
fn memory_hard_limit_adds_one_mebibyte() {
    let eight_mib = U63::try_new(8 * 1024 * 1024).unwrap();
    assert_eq!(memory_hard_limit_for(eight_mib), (9 * 1024 * 1024) as i64);
    assert_eq!(MEBI_BYTE, 1024 * 1024);
}

#[test]
fn memory_hard_limit_saturates() {
    let top = U63::try_new(U63_MAX_VALUE).unwrap();
    assert_eq!(memory_hard_limit_for(top), i64::MAX);
}

#[test]
fn parse_u32_reads_decimal_tokens() {
    assert_eq!(parse_u32_dec(&b"0".to_vec()), Some(0));
    assert_eq!(parse_u32_dec(&b"123456".to_vec()), Some(123456));
    assert_eq!(parse_u32_dec(&b"4294967295".to_vec()), Some(u32::MAX));
    assert_eq!(parse_u32_dec(&b"4294967296".to_vec()), None);
    assert_eq!(parse_u32_dec(&b"".to_vec()), None);
    assert_eq!(parse_u32_dec(&b"12a".to_vec()), None);
    assert_eq!(parse_u32_dec(&b"-5".to_vec()), None);
}

#[test]
fn parse_cpu_stat_finds_usage_usec() {
    let stat = "usage_usec 2500999\nuser_usec 2000000\nsystem_usec 500000\n";
    assert_eq!(parse_cpu_time_ms(stat), Some(2500));
}

#[test]
fn parse_cpu_stat_skips_other_lines() {
    let stat = "nr_periods 0\nnr_throttled 0\nusage_usec 999\n";
    assert_eq!(parse_cpu_time_ms(stat), Some(0));
}

#[test]
fn parse_cpu_stat_without_counter_is_nothing() {
    assert_eq!(parse_cpu_time_ms("user_usec 12\n"), None);
    assert_eq!(parse_cpu_time_ms(""), None);
    assert_eq!(parse_cpu_time_ms("usage_usec\n"), None);
    assert_eq!(parse_cpu_time_ms("usage_usec abc\n"), None);
}

#[test]
fn tokenizer_splits_on_ascii_whitespace() {
    let toks = tokens_exec(&b"  a bb\tccc\n d ".to_vec());
    assert_eq!(toks, vec![b"a".to_vec(), b"bb".to_vec(), b"ccc".to_vec(), b"d".to_vec()]);
    assert!(tokens_exec(&b"   ".to_vec()).is_empty());
    assert!(tokens_exec(&Vec::new()).is_empty());
}
