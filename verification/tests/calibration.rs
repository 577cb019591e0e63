//! Calibration formulas and duration conversion.

use core::time::Duration;

use systick_countdown::duration_to_ms;
use systick_countdown::SysTickCalibration;

#[test]
fn ticks_per_10ms_formula() {
    for (chip_value, expected) in [(10u32, 0u32), (100, 9), (1000, 99), (10_000, 999)] {
        let c = SysTickCalibration::from_ticks_per_10ms(chip_value).unwrap();
        assert_eq!(c.ticks_per_ms, expected);
        assert_eq!(c.ticks_per_ms, (chip_value + 1) / 10 - 1);
    }
}

#[test]
fn ticks_per_10ms_of_8000_is_one_under_800() {
    // 8000 ticks per 10 ms is 800 per millisecond, and the reload value is
    // one fewer than the cycle count: (8000 + 1) / 10 - 1.
    let c = SysTickCalibration::from_ticks_per_10ms(8000).unwrap();
    assert_eq!(c.ticks_per_ms, 799);
}

#[test]
fn zero_chip_value_is_absent() {
    assert!(SysTickCalibration::from_ticks_per_10ms(0).is_none());
}

#[test]
fn chip_values_below_nine_are_absent() {
    for reading in 1u32..9 {
        assert!(SysTickCalibration::from_ticks_per_10ms(reading).is_none());
    }
    assert_eq!(
        SysTickCalibration::from_ticks_per_10ms(9).unwrap().ticks_per_ms,
        0
    );
    assert_eq!(
        SysTickCalibration::from_ticks_per_10ms(19).unwrap().ticks_per_ms,
        1
    );
}

#[test]
fn largest_chip_reading() {
    let c = SysTickCalibration::from_ticks_per_10ms(0x00FF_FFFF).unwrap();
    assert_eq!(c.ticks_per_ms, (0x00FF_FFFF + 1) / 10 - 1);
    assert_eq!(c.ticks_per_ms, 1_677_720);
}

#[test]
fn clock_hz_formula() {
    for (hz, expected) in [
        (1_000_000u32, 999u32),
        (16_000_000, 15_999),
        (48_000_000, 47_999),
        (120_000_000, 119_999),
    ] {
        assert_eq!(SysTickCalibration::from_clock_hz(hz).ticks_per_ms, expected);
    }
}

#[test]
fn whole_milliseconds_add_up() {
    let d = Duration::from_millis(1500);
    assert_eq!(duration_to_ms(d.as_secs(), d.subsec_millis()), 1500);
}

#[test]
fn sub_millisecond_remainders_truncate() {
    let d = Duration::from_nanos(2_999_999);
    assert_eq!(duration_to_ms(d.as_secs(), d.subsec_millis()), 2);
    let d = Duration::from_micros(999);
    assert_eq!(duration_to_ms(d.as_secs(), d.subsec_millis()), 0);
    let d = Duration::new(3, 999_999_999);
    assert_eq!(duration_to_ms(d.as_secs(), d.subsec_millis()), 3999);
}

#[test]
fn largest_representable_duration() {
    // 4_294_967 s and 295 ms come to exactly u32::MAX milliseconds.
    let d = Duration::new(4_294_967, 295_000_000);
    assert_eq!(duration_to_ms(d.as_secs(), d.subsec_millis()), u32::MAX);
}
