use panahon_node::{StatusPin, STATUS_PERIOD};

#[test]
fn first_iteration_starts_heartbeat() {
    let mut pin = StatusPin::new();
    assert!(!pin.led_on);
    assert!(pin.in_loop(10));
    assert!(pin.led_on);
    assert!(pin.alarm.armed);
    assert_eq!(pin.alarm.start, 10);
    assert_eq!(pin.alarm.countdown, STATUS_PERIOD);
}

#[test]
fn toggles_once_per_period() {
    let mut pin = StatusPin::new();
    let mut toggles = 0;
    let mut now: u64 = 0;
    while now < 1_000_000 {
        if pin.in_loop(now) {
            toggles += 1;
        }
        now += 1_000;
    }
    assert_eq!(toggles, 4);
    assert!(!pin.led_on);
}

#[test]
fn extra_iterations_within_period_are_no_ops() {
    let mut pin = StatusPin::new();
    assert!(pin.in_loop(500));
    let before = pin;
    for t in [501, 600, 100_000, 250_499] {
        assert!(!pin.in_loop(t));
        assert_eq!(pin, before);
    }
    assert!(pin.in_loop(250_500));
    assert!(!pin.led_on);
}

#[test]
fn heartbeat_survives_counter_wrap() {
    let mut pin = StatusPin::new();
    let start = u64::MAX - 100;
    assert!(pin.in_loop(start));
    assert!(!pin.in_loop(5));
    assert!(pin.in_loop(STATUS_PERIOD));
}
