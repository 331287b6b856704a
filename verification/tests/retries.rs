use contributed::retry::RetryPolicy;

#[test]
fn standard_policy() {
    let policy = RetryPolicy::standard();
    assert_eq!(policy, RetryPolicy { max_attempts: 3, base_delay_ms: 200, max_delay_ms: 5000 });
}

#[test]
fn policy_needs_one_attempt() {
    assert_eq!(RetryPolicy::new(0, 200, 5000), None);
    assert_eq!(
        RetryPolicy::new(1, 200, 5000),
        Some(RetryPolicy { max_attempts: 1, base_delay_ms: 200, max_delay_ms: 5000 })
    );
}

#[test]
fn delay_doubles_up_to_the_cap() {
    let policy = RetryPolicy::standard();
    assert_eq!(policy.delay_after(0), 0);
    assert_eq!(policy.delay_after(1), 200);
    assert_eq!(policy.delay_after(2), 400);
    assert_eq!(policy.delay_after(3), 800);
    assert_eq!(policy.delay_after(4), 1600);
    assert_eq!(policy.delay_after(5), 3200);
    assert_eq!(policy.delay_after(6), 5000);
    assert_eq!(policy.delay_after(7), 5000);
    assert_eq!(policy.delay_after(u32::MAX), 5000);
}

#[test]
fn delay_never_overflows() {
    let policy = RetryPolicy { max_attempts: 100, base_delay_ms: 3, max_delay_ms: u64::MAX };
    assert_eq!(policy.delay_after(1), 3);
    assert_eq!(policy.delay_after(63), 3 << 62);
    assert_eq!(policy.delay_after(64), u64::MAX);
    assert_eq!(policy.delay_after(1000), u64::MAX);
}

#[test]
fn delay_of_degenerate_policies() {
    let zero = RetryPolicy { max_attempts: 3, base_delay_ms: 0, max_delay_ms: 5000 };
    assert_eq!(zero.delay_after(1), 0);
    assert_eq!(zero.delay_after(9), 0);
    let capped = RetryPolicy { max_attempts: 3, base_delay_ms: 700, max_delay_ms: 500 };
    assert_eq!(capped.delay_after(1), 500);
    assert_eq!(capped.delay_after(2), 500);
    let exact = RetryPolicy { max_attempts: 3, base_delay_ms: 250, max_delay_ms: 1000 };
    assert_eq!(exact.delay_after(3), 1000);
    assert_eq!(exact.delay_after(4), 1000);
}
