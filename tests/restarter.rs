use ancs4linux::device::{SUBSCRIBE_INTERVAL_SECS, SUBSCRIBE_MAX_ATTEMPTS};
use ancs4linux::task_restarter::{TaskRestarter, TickOutcome};

#[test]
fn subscription_retry() {
    let mut r = TaskRestarter::new(SUBSCRIBE_MAX_ATTEMPTS, SUBSCRIBE_INTERVAL_SECS);
    assert_eq!(r.interval_secs(), 1);
    let probes = [false, false, false, true];
    let mut successes = 0;
    let mut failures = 0;
    let mut attached_on = 0;
    for (n, ok) in probes.iter().enumerate() {
        match r.try_running_tick(*ok) {
            TickOutcome::Succeeded => {
                successes += 1;
                attached_on = n + 1;
            }
            TickOutcome::Exhausted => failures += 1,
            TickOutcome::Retry => {}
            TickOutcome::Finished => panic!("finished too early"),
        }
    }
    assert_eq!((successes, failures, attached_on), (1, 0, 4));
    assert_eq!(r.try_running_tick(true), TickOutcome::Finished);
    assert!(r.is_finished());
}

#[test]
fn restarter_exhausts() {
    let mut r = TaskRestarter::new(3, 1);
    assert_eq!(r.try_running_tick(false), TickOutcome::Retry);
    assert_eq!(r.try_running_tick(false), TickOutcome::Retry);
    assert_eq!(r.try_running_tick(false), TickOutcome::Exhausted);
    assert_eq!(r.attempts(), 3);
    assert_eq!(r.try_running_tick(false), TickOutcome::Finished);
    assert_eq!(r.try_running_tick(true), TickOutcome::Finished);
}

#[test]
fn restarter_gives_up_after_the_limit() {
    let mut r = TaskRestarter::new(SUBSCRIBE_MAX_ATTEMPTS, SUBSCRIBE_INTERVAL_SECS);
    let mut retries = 0;
    loop {
        match r.try_running_tick(false) {
            TickOutcome::Retry => retries += 1,
            TickOutcome::Exhausted => break,
            other => panic!("unexpected {:?}", other),
        }
    }
    assert_eq!(retries, 119);
}
