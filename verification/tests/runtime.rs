use lyra::runtime::define_gasket_policy;
use lyra::runtime::RetryPolicy;
use lyra::runtime::CHANNEL_CAPACITY;

fn policy(max_retries: usize, unit: u64, factor: u32, max: u64, dismissible: bool) -> RetryPolicy {
    RetryPolicy {
        max_retries,
        backoff_unit: unit,
        backoff_factor: factor,
        max_backoff: max,
        dismissible,
    }
}

#[test]
fn the_default_policy() {
    let p = define_gasket_policy(None);
    let expected = policy(20, 1, 2, 60, false);
    assert_eq!(p.tick_timeout, None);
    assert_eq!(p.bootstrap_retry, expected);
    assert_eq!(p.work_retry, expected);
    assert_eq!(p.teardown_retry, expected);
}

#[test]
fn the_configured_policy_stands_for_every_phase() {
    let configured = policy(3, 5, 7, 11, true);
    let p = define_gasket_policy(Some(&configured));
    assert_eq!(p.tick_timeout, None);
    assert_eq!(p.bootstrap_retry, configured);
    assert_eq!(p.work_retry, configured);
    assert_eq!(p.teardown_retry, configured);
}

#[test]
fn channels_hold_a_hundred_messages() {
    assert_eq!(CHANNEL_CAPACITY, 100);
}
