use vstd::prelude::*;

use crate::settings::{MeasurementTime, Resolution, DEFAULT_MEASUREMENT_TIME};

verus! {

/// An illuminance in lux, held exactly as the fraction `num / den`.
#[derive(Clone, Copy, Debug, PartialEq, Eq)]
pub struct Lux {
    /// Numerator.
    pub num: u32,
    /// Denominator.
    pub den: u32,
}

impl Lux {
    /// This illuminance equals `n / d` lux.
    pub open spec fn equals(self, n: int, d: int) -> bool {
        self.num * d == n * self.den
    }

    /// This illuminance rounded to the nearest lux, halves rounded up.
    pub open spec fn nearest_spec(self) -> int {
        (2 * self.num + self.den) / (2 * self.den)
    }

    /// This illuminance rounded to the nearest lux, halves rounded up.
    pub fn nearest(&self) -> (r: u32)
        requires
            self.den > 0,
        ensures
            r == self.nearest_spec(),
    {
        let n = self.num as u64;
        let d = self.den as u64;
        proof {
            let q = (2 * n + d) / (2 * d);
            assert(q <= n) by (nonlinear_arith)
                requires
                    q == (2 * n + d) / (2 * d),
                    d >= 1,
                    n >= 0,
            {
                assert(2 * n + d < 2 * d * (n + 1));
            }
        }
        ((2 * n + d) / (2 * d)) as u32
    }
}

/// Lux per count at the given resolution and measurement time, as the
/// factor `num / den`: one count is 1/1.2 lx, half of that at 0.5 lx
/// resolution, and a custom measurement time `t` scales the high-resolution
/// results by `69 / t`.
pub open spec fn lux_per_count(res: Resolution, mt: MeasurementTime) -> (int, int) {
    match res {
        Resolution::Lx4_0 => (10, 12),
        Resolution::Lx1_0 => match mt {
            MeasurementTime::Default => (10, 12),
            MeasurementTime::Custom(t) => (10 * DEFAULT_MEASUREMENT_TIME, 12 * t),
        },
        Resolution::Lx0_5 => match mt {
            MeasurementTime::Default => (10, 24),
            MeasurementTime::Custom(t) => (10 * DEFAULT_MEASUREMENT_TIME, 24 * t),
        },
    }
}

/// The illuminance that a raw count stands for.
pub open spec fn lux_of(res: Resolution, raw: u16, mt: MeasurementTime) -> Lux {
    let (n, d) = lux_per_count(res, mt);
    Lux { num: (raw * n) as u32, den: d as u32 }
}

/// Converts a raw count into lux, for the given resolution and measurement
/// time.
pub fn convert(res: Resolution, raw: u16, mt: MeasurementTime) -> (r: Lux)
    requires
        mt.wf(),
    ensures
        r == lux_of(res, raw, mt),
        r.num == raw * lux_per_count(res, mt).0,
        r.den == lux_per_count(res, mt).1,
        r.den > 0,
{
    let c = raw as u32;
    match res {
        Resolution::Lx4_0 => Lux { num: c * 10, den: 12 },
        Resolution::Lx1_0 => match mt {
            MeasurementTime::Default => Lux { num: c * 10, den: 12 },
            MeasurementTime::Custom(t) => Lux { num: c * 690, den: 12 * t as u32 },
        },
        Resolution::Lx0_5 => match mt {
            MeasurementTime::Default => Lux { num: c * 10, den: 24 },
            MeasurementTime::Custom(t) => Lux { num: c * 690, den: 24 * t as u32 },
        },
    }
}

/// Milliseconds to wait between triggering a measurement and reading it.
pub open spec fn wait_ms(res: Resolution, mt: MeasurementTime) -> u16 {
    match res {
        Resolution::Lx4_0 => 24,
        _ => match mt {
            MeasurementTime::Default => 180,
            MeasurementTime::Custom(t) => (180 * t / DEFAULT_MEASUREMENT_TIME as int) as u16,
        },
    }
}

/// Milliseconds to wait between triggering a measurement and reading it:
/// 24 at 4.0 lx resolution, otherwise 180 scaled by `t / 69` for a custom
/// measurement time `t`, rounded toward zero.
pub fn delay_ms(res: Resolution, mt: MeasurementTime) -> (r: u16)
    ensures
        r == wait_ms(res, mt),
{
    match res {
        Resolution::Lx4_0 => 24,
        _ => match mt {
            MeasurementTime::Default => 180,
            MeasurementTime::Custom(t) => (180 * t as u32 / DEFAULT_MEASUREMENT_TIME as u32) as u16,
        },
    }
}

/// The raw count carried by the two bytes read from the sensor, most
/// significant first.
pub fn read_u16(high: u8, low: u8) -> (r: u16)
    ensures
        r == high * 256 + low,
{
    let h = high as u16;
    let l = low as u16;
    assert((h << 8u16) == h * 256) by (bit_vector)
        requires
            h < 256,
    ;
    (h << 8u16) + l
}

/// With the default measurement time a count `c` is `c / 1.2` lx at 1.0 lx
/// and 4.0 lx resolution, and `c / 2.4` lx at 0.5 lx resolution.
pub proof fn lemma_default_conversion(res: Resolution, c: u16)
    ensures
        res != Resolution::Lx0_5 ==> lux_of(res, c, MeasurementTime::Default).equals(c * 10, 12),
        res == Resolution::Lx0_5 ==> lux_of(res, c, MeasurementTime::Default).equals(c * 10, 24),
{
}

/// A custom measurement time `t` scales the high-resolution results by
/// `69 / t`, and leaves the 4.0 lx result as it is with the default time.
pub proof fn lemma_custom_time_conversion(res: Resolution, c: u16, t: u8)
    requires
        MeasurementTime::Custom(t).wf(),
    ensures
        ({
            let custom = lux_of(res, c, MeasurementTime::Custom(t));
            let base = lux_of(res, c, MeasurementTime::Default);
            &&& res != Resolution::Lx4_0 ==> custom.equals(base.num * 69, base.den * t)
            &&& res == Resolution::Lx4_0 ==> custom == base
        }),
{
    let custom = lux_of(res, c, MeasurementTime::Custom(t));
    let base = lux_of(res, c, MeasurementTime::Default);
    if res != Resolution::Lx4_0 {
        let d: int = if res == Resolution::Lx1_0 { 12 } else { 24 };
        assert(base.num == c * 10 && base.den == d);
        assert(custom.num == c * 690 && custom.den == d * t);
        assert((c * 690) * (d * t) == (c * 10 * 69) * (d * t)) by (nonlinear_arith);
    }
}

/// At 4.0 lx resolution the wait is 24 ms whatever the measurement time.
pub proof fn lemma_low_resolution_wait(mt: MeasurementTime)
    ensures
        wait_ms(Resolution::Lx4_0, mt) == 24,
{
}

/// At 0.5 lx and 1.0 lx resolution the wait is 180 ms with the default
/// measurement time, and `180 * t / 69` ms, rounded toward zero, with a
/// custom time `t`.
pub proof fn lemma_high_resolution_wait(res: Resolution, t: u8)
    requires
        res != Resolution::Lx4_0,
    ensures
        wait_ms(res, MeasurementTime::Default) == 180,
        wait_ms(res, MeasurementTime::Custom(t)) == 180 * t / 69,
{
    assert(180 * t / 69 <= 180 * 255 / 69) by (nonlinear_arith)
        requires
            t <= 255,
    ;
}

} // verus!
