use flipperzero_threads::{sleep_delay, Delay};

#[test]
fn short_sleep_uses_microseconds() {
    assert_eq!(sleep_delay(0, 0), Some(Delay::Micros(0)));
    assert_eq!(sleep_delay(1, 500_999), Some(Delay::Micros(1_000_500)));
    assert_eq!(sleep_delay(3599, 999_999_999), Some(Delay::Micros(3_599_999_999)));
}

#[test]
fn hour_long_sleep_uses_milliseconds() {
    assert_eq!(sleep_delay(3600, 0), Some(Delay::Millis(3_600_000)));
    assert_eq!(sleep_delay(4000, 1_999_999), Some(Delay::Millis(4_000_001)));
    assert_eq!(sleep_delay(7200, 0), None);
}

#[test]
fn sleep_past_two_to_the_thirty_two_micros_is_refused() {
    // 2^32 + 1 microseconds.
    assert_eq!(sleep_delay(4294, 967_297_000), None);
}

#[test]
fn longest_sleep_is_accepted() {
    // Exactly 2^32 microseconds.
    assert_eq!(sleep_delay(4294, 967_296_000), Some(Delay::Millis(4_294_967)));
}

#[test]
fn sleep_beyond_maximum_is_refused() {
    assert_eq!(sleep_delay(4294, 967_296_001), None);
    assert_eq!(sleep_delay(4_294_967, 295_000_000), None);
    assert_eq!(sleep_delay(u64::MAX, 999_999_999), None);
}
