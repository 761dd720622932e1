use lolipop::timing::{duration_ms, get_monitor_refresh_rate, TimeSpan, TICKS_PER_MILLISECOND};

#[test]
fn refresh_rate_is_sixty() {
    assert_eq!(get_monitor_refresh_rate(), 60);
}

#[test]
fn duration_counts_hundred_nanosecond_ticks() {
    assert_eq!(duration_ms(1500), TimeSpan { duration: 15_000_000 });
    assert_eq!(duration_ms(0).duration, 0);
    assert_eq!(duration_ms(-3).duration, -30_000);
    assert_eq!(duration_ms(1).duration, TICKS_PER_MILLISECOND);
}

#[test]
fn duration_is_additive() {
    let a = duration_ms(120).duration;
    let b = duration_ms(380).duration;
    assert_eq!(a + b, duration_ms(500).duration);
    assert_eq!(duration_ms(-70).duration + duration_ms(20).duration, duration_ms(-50).duration);
}

#[test]
fn duration_at_the_edge_of_range() {
    let ms = i64::MAX / 10_000;
    assert_eq!(duration_ms(ms).duration, ms * 10_000);
}
