use matrix_mozilla_bot::backoff::{Backoff, RetryStep, MAX_DELAY_SECS};

#[test]
fn schedule_doubles_until_cap() {
    assert_eq!(
        Backoff::schedule(),
        vec![2, 4, 8, 16, 32, 64, 128, 256, 512, 1024, 2048]
    );
}

#[test]
fn failures_step_through_delays() {
    let mut b = Backoff::new();
    assert_eq!(b.on_failure(), RetryStep { wait_secs: 2, retry: true });
    assert_eq!(b.on_failure(), RetryStep { wait_secs: 4, retry: true });
    assert_eq!(b.delay, 8);
}

#[test]
fn gives_up_once_next_delay_exceeds_cap() {
    let mut b = Backoff { delay: 2048 };
    let step = b.on_failure();
    assert_eq!(step, RetryStep { wait_secs: 2048, retry: false });
    assert!(b.delay > MAX_DELAY_SECS);
    let mut c = Backoff { delay: 1800 };
    assert_eq!(c.on_failure(), RetryStep { wait_secs: 1800, retry: true });
}
