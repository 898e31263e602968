use actions::dispatch::{Dispatcher, MAX_IN_FLIGHT};
use actions::stats::RunStats;

fn ok(total: u128) -> Option<RunStats> {
    Some(RunStats { count: 1, total, min: Some(total as u64), max: Some(total as u64) })
}

#[test]
fn never_more_than_twenty_in_flight() {
    let mut d = Dispatcher::new(45);
    let mut started = Vec::new();
    let mut peak = 0;
    loop {
        while let Some(i) = d.start_next() {
            started.push(i);
        }
        peak = peak.max(d.in_flight);
        assert!(d.in_flight <= MAX_IN_FLIGHT);
        if d.is_finished() {
            break;
        }
        // complete three at a time, one of them failing
        for k in 0..3 {
            if d.in_flight == 0 {
                break;
            }
            if k == 0 {
                d.complete(None);
            } else {
                d.complete(ok(10));
            }
        }
    }
    assert_eq!(peak, 20);
    assert_eq!(started, (0..45).collect::<Vec<_>>());
    assert_eq!(d.total, 10 * (45 - d.failed as u128));
}

#[test]
fn grand_total_excludes_failures() {
    let mut d = Dispatcher::new(3);
    assert_eq!(d.start_next(), Some(0));
    assert_eq!(d.start_next(), Some(1));
    assert_eq!(d.start_next(), Some(2));
    assert_eq!(d.start_next(), None);
    d.complete(ok(100));
    d.complete(None);
    d.complete(ok(23));
    assert!(d.is_finished());
    assert_eq!(d.total, 123);
    assert_eq!(d.failed, 1);
}

#[test]
fn grand_total_saturates() {
    let mut d = Dispatcher::new(2);
    d.start_next();
    d.start_next();
    d.complete(ok(u128::MAX - 1));
    d.complete(ok(5));
    assert_eq!(d.total, u128::MAX);
}

#[test]
fn empty_fan_out_is_finished() {
    let mut d = Dispatcher::new(0);
    assert!(d.is_finished());
    assert_eq!(d.start_next(), None);
}
