use grandstand_gauntlet::timing::{tick_and_expire, Countdown};

#[test]
fn countdown_runs_to_its_duration_and_stays() {
    let mut timer = Countdown::from_millis(500);
    assert!(!timer.finished());
    assert_eq!(timer.remaining_ms(), 500);
    assert!(!timer.tick(200));
    assert_eq!(timer.elapsed_ms, 200);
    assert!(timer.tick(300));
    assert!(timer.finished());
    assert_eq!(timer.elapsed_ms, 500);
    assert!(!timer.tick(100));
    assert_eq!(timer.elapsed_ms, 500);
    timer.reset();
    assert_eq!(timer, Countdown { elapsed_ms: 0, duration_ms: 500 });
}

#[test]
fn expiring_countdown_is_dropped_when_over() {
    let timer = Some(Countdown::from_millis(100));
    let next = tick_and_expire(timer, 40);
    assert_eq!(next, Some(Countdown { elapsed_ms: 40, duration_ms: 100 }));
    assert_eq!(tick_and_expire(next, 60), None);
    assert_eq!(tick_and_expire(None, 60), None);
    assert_eq!(tick_and_expire(Some(Countdown::from_millis(0)), 0), None);
    assert_eq!(tick_and_expire(Some(Countdown::from_millis(10)), u32::MAX), None);
}
