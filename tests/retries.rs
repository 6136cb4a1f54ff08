use golem_worker::retry::{backoff, effective_config, retry_decision};
use golem_worker::worker::RetryConfig;

fn config(max_attempts: u32, min: u64, max: u64) -> RetryConfig {
    RetryConfig { max_attempts, min_delay_ms: min, max_delay_ms: max }
}

#[test]
fn worker_config_overrides_the_default() {
    let default = config(3, 100, 1000);
    let own = config(5, 10, 50);
    assert_eq!(effective_config(Some(own), default), own);
    assert_eq!(effective_config(None, default), default);
}

#[test]
fn backoff_doubles_up_to_the_maximum() {
    let c = config(10, 100, 1000);
    let delays: Vec<u64> = (0..6).map(|a| backoff(c, a)).collect();
    assert_eq!(delays, vec![100, 200, 400, 800, 1000, 1000]);
    assert_eq!(backoff(config(1, 5000, 1000), 0), 1000);
    assert_eq!(backoff(config(1, 7, u64::MAX), 70), u64::MAX);
}

#[test]
fn retries_stop_at_the_maximum_attempts() {
    let c = config(2, 100, 1000);
    assert_eq!(retry_decision(c, 0), Some(100));
    assert_eq!(retry_decision(c, 1), Some(200));
    assert_eq!(retry_decision(c, 2), None);
    assert_eq!(retry_decision(config(0, 1, 1), 0), None);
}
