use countdown_latch::{CountDownLatch, LatchError};

#[test]
fn fresh_latch_reports_its_count() {
    let mut latch = CountDownLatch::new(5);
    assert_eq!(latch.get_count(), 5);
    assert_eq!(latch.get_count(), 5);
}

#[test]
fn zero_latch_is_released_immediately() {
    let mut latch = CountDownLatch::new(0);
    assert_eq!(latch.get_count(), 0);
    latch.wait();
    assert_eq!(latch.get_count(), 0);
}

#[test]
fn zero_latch_refuses_any_delivery() {
    let mut latch = CountDownLatch::new(0);
    assert_eq!(latch.count_down(), Err(LatchError::Overshoot));
    assert_eq!(latch.get_count(), 0);
}

#[test]
fn full_delivery_releases() {
    for n in 0..6usize {
        let mut latch = CountDownLatch::new(n);
        for _ in 0..n {
            assert_eq!(latch.count_down(), Ok(()));
        }
        assert_eq!(latch.get_count(), 0);
        latch.wait();
        assert_eq!(latch.get_count(), 0);
    }
}

#[test]
fn count_falls_by_one_per_delivery() {
    let mut latch = CountDownLatch::new(3);
    assert_eq!(latch.get_count(), 3);
    assert_eq!(latch.count_down(), Ok(()));
    assert_eq!(latch.get_count(), 2);
    assert_eq!(latch.count_down(), Ok(()));
    assert_eq!(latch.get_count(), 1);
    assert_eq!(latch.count_down(), Ok(()));
    assert_eq!(latch.get_count(), 0);
}

#[test]
fn overshoot_reports_error_and_count_stays_zero() {
    let mut latch = CountDownLatch::new(2);
    assert_eq!(latch.count_down(), Ok(()));
    assert_eq!(latch.count_down(), Ok(()));
    assert_eq!(latch.count_down(), Err(LatchError::Overshoot));
    assert_eq!(latch.get_count(), 0);
    assert_eq!(latch.count_down(), Err(LatchError::Overshoot));
    assert_eq!(latch.get_count(), 0);
}

#[test]
fn release_is_permanent() {
    let mut latch = CountDownLatch::new(1);
    assert_eq!(latch.count_down(), Ok(()));
    assert_eq!(latch.get_count(), 0);
    for _ in 0..4 {
        assert_eq!(latch.count_down(), Err(LatchError::Overshoot));
        assert_eq!(latch.get_count(), 0);
        latch.wait();
        assert_eq!(latch.get_count(), 0);
    }
}

#[test]
fn wait_applies_pending_signals_and_repeats() {
    let mut latch = CountDownLatch::new(4);
    for _ in 0..4 {
        assert_eq!(latch.count_down(), Ok(()));
    }
    latch.wait();
    assert_eq!(latch.get_count(), 0);
    latch.wait();
    assert_eq!(latch.get_count(), 0);
}

#[test]
fn count_never_increases() {
    let mut latch = CountDownLatch::new(3);
    let mut last = latch.get_count();
    assert_eq!(last, 3);
    assert_eq!(latch.count_down(), Ok(()));
    let mut seen = latch.get_count();
    assert!(seen <= last);
    last = seen;
    assert_eq!(latch.count_down(), Ok(()));
    assert_eq!(latch.count_down(), Ok(()));
    seen = latch.get_count();
    assert!(seen <= last);
    last = seen;
    assert_eq!(last, 0);
    seen = latch.get_count();
    assert!(seen <= last);
    assert_eq!(seen, 0);
}

#[test]
fn chained_latches_release_in_order() {
    let mut first = CountDownLatch::new(5);
    for _ in 0..5 {
        assert_eq!(first.count_down(), Ok(()));
    }
    let mut second = CountDownLatch::new(3);
    for _ in 0..3 {
        first.wait();
        assert_eq!(second.count_down(), Ok(()));
    }
    second.wait();
    assert_eq!(first.get_count(), 0);
    assert_eq!(second.get_count(), 0);
}
