use qcw_core::clock::micros;
use qcw_core::clock::millis;
use qcw_core::clock::nanos;
use qcw_core::clock::seconds;

#[test]
fn nanos_combines_both_counters() {
    assert_eq!(nanos(0, 0), 0);
    assert_eq!(nanos(1, 0), 100);
    assert_eq!(nanos(9999, 0), 999_900);
    assert_eq!(nanos(0, 1), 1_000_000);
    assert_eq!(nanos(2500, 3), 3_250_000);
    assert_eq!(nanos(u16::MAX, u32::MAX), 65535 * 100 + 4_294_967_295 * 1_000_000);
}

#[test]
fn micros_combines_both_counters() {
    assert_eq!(micros(0, 0), 0);
    assert_eq!(micros(9, 0), 0);
    assert_eq!(micros(10, 0), 1);
    assert_eq!(micros(9999, 0), 999);
    assert_eq!(micros(2500, 3), 3250);
}

#[test]
fn millis_is_the_wide_counter() {
    assert_eq!(millis(0), 0);
    assert_eq!(millis(123_456), 123_456);
    assert_eq!(millis(u32::MAX), 4_294_967_295);
}

#[test]
fn seconds_truncates_milliseconds() {
    assert_eq!(seconds(0), 0);
    assert_eq!(seconds(999), 0);
    assert_eq!(seconds(1000), 1);
    assert_eq!(seconds(123_456), 123);
}
