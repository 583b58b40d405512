use physim::readout::{Throttled, READOUT_PERIOD_MS};

#[test]
fn first_refresh_always_samples() {
    let mut shown = Throttled::new(0.0f32);
    shown.refresh(0, 3.5);
    assert_eq!(shown.value, 3.5);
    assert_eq!(shown.sampled_at_ms, Some(0));
}

#[test]
fn refresh_waits_one_period() {
    let mut shown = Throttled::new(0u32);
    shown.refresh(1000, 1);
    shown.refresh(1099, 2);
    assert_eq!(shown.value, 1);
    assert_eq!(shown.sampled_at_ms, Some(1000));
    shown.refresh(1000 + READOUT_PERIOD_MS, 3);
    assert_eq!(shown.value, 3);
    assert_eq!(shown.sampled_at_ms, Some(1100));
}

#[test]
fn clock_going_back_does_not_sample() {
    let mut shown = Throttled::new(0u32);
    shown.refresh(500, 1);
    shown.refresh(10, 2);
    assert_eq!(shown.value, 1);
    assert_eq!(shown.sampled_at_ms, Some(500));
    shown.refresh(u64::MAX, 9);
    assert_eq!(shown.value, 9);
}
