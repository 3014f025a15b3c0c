//! Scheduler behaviour: enrolment, the rate guard, firing and removal.

use cable::states::TimerState;

#[test]
fn timer_fire_nine_times_at_ten_fps() {
    // fps=10; a timer starting 200 ms out with a 100 ms period fires at
    // 200, 300, ..., 1000 while the clock walks 1050 ms in 100 ms ticks.
    let mut ts = TimerState::new(10);
    let id = ts.add_timer_at(0, 200, 100);
    assert_eq!(id, 1);
    let mut fired_total = 0;
    let mut t: i64 = 100;
    while t <= 1000 {
        match ts.update(t) {
            Some(ids) => {
                assert_eq!(ids, vec![1u64]);
                fired_total += ids.len();
            }
            None => {
                assert!(t < 200);
            }
        }
        t += 100;
    }
    assert_eq!(fired_total, 9);
}

#[test]
fn timer_fps_guard() {
    let mut ts = TimerState::new(10);
    // 1000/freq > fps is rejected: 1000/50 = 20 > 10.
    assert_eq!(ts.add_timer_at(0, 0, 50), 0);
    // Negative arguments are rejected.
    assert_eq!(ts.add_timer_at(0, -1, 100), 0);
    assert_eq!(ts.add_timer_at(0, 100, -1), 0);
    // Exactly the tick rate is allowed: 1000/100 = 10 <= 10.
    assert_eq!(ts.add_timer_at(0, 0, 100), 1);
    // Slower than the tick rate is allowed, and ids keep increasing.
    assert_eq!(ts.add_timer_at(0, 0, 1000), 2);
    // One-shot timers are never rate-limited.
    assert_eq!(ts.add_timer_at(0, 5, 0), 3);
}

#[test]
fn timer_one_shot_fires_once() {
    let mut ts = TimerState::new(10);
    let id = ts.add_timer_at(0, 100, 0);
    assert_eq!(id, 1);
    assert!(ts.update(50).is_none());
    assert_eq!(ts.update(100).unwrap(), vec![1u64]);
    // Gone after firing.
    assert!(ts.update(10_000).is_none());
}

#[test]
fn timer_update_orders_periodic_before_one_shot() {
    let mut ts = TimerState::new(10);
    let once = ts.add_timer_at(0, 100, 0);
    let periodic = ts.add_timer_at(0, 150, 200);
    assert_eq!(once, 1);
    assert_eq!(periodic, 2);
    // Both matured: periodic ids come first, then one-shot ids.
    assert_eq!(ts.update(200).unwrap(), vec![2u64, 1u64]);
}

#[test]
fn timer_remove_cancels() {
    let mut ts = TimerState::new(10);
    let a = ts.add_timer_at(0, 100, 100);
    let b = ts.add_timer_at(0, 100, 0);
    assert_eq!((a, b), (1, 2));
    ts.remove_timer(1);
    assert_eq!(ts.update(150).unwrap(), vec![2u64]);
    ts.remove_timer(77); // unknown ids are ignored
    assert!(ts.update(1_000).is_none());
}

#[test]
fn timer_ids_never_reused() {
    let mut ts = TimerState::new(10);
    assert_eq!(ts.add_timer_at(0, 10, 0), 1);
    assert_eq!(ts.update(10).unwrap(), vec![1u64]);
    // The list is empty again, but the next id is still fresh.
    assert_eq!(ts.add_timer_at(20, 10, 0), 2);
}
