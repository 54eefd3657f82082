use bh1750::{convert, delay_ms, read_u16, Lux, MeasurementTime, Resolution};

fn lux_value(l: Lux) -> f64 {
    l.num as f64 / l.den as f64
}

#[test]
fn default_time_high_resolution_example() {
    let l = convert(Resolution::Lx1_0, 5400, MeasurementTime::Default);
    assert_eq!(l, Lux { num: 54000, den: 12 });
    assert_eq!(l.nearest(), 4500);
    assert!((lux_value(l) - 4500.0).abs() < 1e-9);
}

#[test]
fn half_lux_resolution_example() {
    let l = convert(Resolution::Lx0_5, 240, MeasurementTime::Default);
    assert_eq!(l.nearest(), 100);
    assert!((lux_value(l) - 100.0).abs() < 1e-9);
}

#[test]
fn custom_time_example() {
    let l = convert(Resolution::Lx1_0, 5400, MeasurementTime::Custom(254));
    let expected = 5400.0 / 1.2 * (69.0 / 254.0);
    assert!((lux_value(l) - expected).abs() < 1e-9);
    assert_eq!(l.nearest(), 1222);
}

#[test]
fn default_time_divides_by_resolution_factor() {
    for c in [0u16, 1, 7, 240, 5400, 12345, 65535] {
        let hi = lux_value(convert(Resolution::Lx1_0, c, MeasurementTime::Default));
        let lo = lux_value(convert(Resolution::Lx4_0, c, MeasurementTime::Default));
        let half = lux_value(convert(Resolution::Lx0_5, c, MeasurementTime::Default));
        assert!((hi - c as f64 / 1.2).abs() < 1e-6);
        assert!((lo - c as f64 / 1.2).abs() < 1e-6);
        assert!((half - c as f64 / 2.4).abs() < 1e-6);
    }
}

#[test]
fn custom_time_scales_high_resolution_only() {
    for t in [31u8, 69, 100, 254] {
        for c in [1u16, 5400, 65535] {
            for res in [Resolution::Lx0_5, Resolution::Lx1_0] {
                let base = lux_value(convert(res, c, MeasurementTime::Default));
                let custom = lux_value(convert(res, c, MeasurementTime::Custom(t)));
                assert!((custom - base * 69.0 / t as f64).abs() < 1e-6);
            }
            assert_eq!(
                convert(Resolution::Lx4_0, c, MeasurementTime::Custom(t)),
                convert(Resolution::Lx4_0, c, MeasurementTime::Default)
            );
        }
    }
}

#[test]
fn low_resolution_wait_ignores_time() {
    assert_eq!(delay_ms(Resolution::Lx4_0, MeasurementTime::Default), 24);
    assert_eq!(delay_ms(Resolution::Lx4_0, MeasurementTime::Custom(31)), 24);
    assert_eq!(delay_ms(Resolution::Lx4_0, MeasurementTime::Custom(254)), 24);
}

#[test]
fn high_resolution_wait_scales_with_time() {
    for res in [Resolution::Lx0_5, Resolution::Lx1_0] {
        assert_eq!(delay_ms(res, MeasurementTime::Default), 180);
        assert_eq!(delay_ms(res, MeasurementTime::Custom(69)), 180);
        assert_eq!(delay_ms(res, MeasurementTime::Custom(31)), 80);
        assert_eq!(delay_ms(res, MeasurementTime::Custom(138)), 360);
        assert_eq!(delay_ms(res, MeasurementTime::Custom(254)), 662);
    }
}

#[test]
fn raw_count_is_big_endian() {
    assert_eq!(read_u16(0x15, 0x18), 5400);
    assert_eq!(read_u16(0xff, 0xff), 65535);
    assert_eq!(read_u16(0x00, 0x01), 1);
    assert_eq!(read_u16(0x01, 0x00), 256);
}

#[test]
fn nearest_rounds_halves_up() {
    assert_eq!(Lux { num: 5, den: 2 }.nearest(), 3);
    assert_eq!(Lux { num: 7, den: 3 }.nearest(), 2);
    assert_eq!(Lux { num: 0, den: 12 }.nearest(), 0);
    assert_eq!(Lux { num: u32::MAX, den: 1 }.nearest(), u32::MAX);
}
