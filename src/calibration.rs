use vstd::arithmetic::div_mod::lemma_fundamental_div_mod_converse;
use vstd::prelude::*;

verus! {

/// Why a single conversion could not be carried out.
#[derive(Debug, Clone, Copy, PartialEq, Eq, Structural)]
pub enum ConversionError {
    /// The measured reference-channel code is zero.
    ZeroReference,
    /// The nominal supply voltage is zero.
    ZeroNominalSupply,
    /// The two temperature calibration points hold the same code.
    EqualCalibrationPoints,
    /// The scan has no reference-voltage channel.
    MissingReferenceChannel,
    /// The scan has no temperature-sensor channel.
    MissingTemperatureChannel,
}

/// Factory calibration constants, read once at start-up.
#[derive(Debug, Clone, Copy, PartialEq, Eq, Structural)]
pub struct CalibrationConstants {
    /// Temperature-sensor code at 30 degrees Celsius.
    pub cal30_raw: u16,
    /// Temperature-sensor code at 130 degrees Celsius.
    pub cal130_raw: u16,
    /// Reference-voltage code measured at the nominal supply.
    pub vref_cal_raw: u16,
    /// Nominal design supply voltage, in millivolts.
    pub nominal_mv: u16,
}

/// Supply voltage derived from the reference channel: `nominal * cal / measured`.
pub open spec fn supply_mv_spec(ref_raw: u16, ref_cal_raw: u16, nominal_mv: u16) -> int
    recommends
        ref_raw > 0,
{
    (nominal_mv as int * ref_cal_raw as int) / (ref_raw as int)
}

/// Derives the actual supply voltage (millivolts) from the measured reference code
/// and its factory code taken at the nominal supply; truncating division.
pub fn supply_millivolts(ref_raw: u16, ref_cal_raw: u16, nominal_mv: u16) -> (r: Result<
    u32,
    ConversionError,
>)
    ensures
        ref_raw == 0 <==> r == Err::<u32, ConversionError>(ConversionError::ZeroReference),
        ref_raw != 0 ==> r == Ok::<u32, ConversionError>(
            supply_mv_spec(ref_raw, ref_cal_raw, nominal_mv) as u32,
        ),
        ref_raw != 0 ==> supply_mv_spec(ref_raw, ref_cal_raw, nominal_mv) <= u32::MAX,
{
    if ref_raw == 0 {
        return Err(ConversionError::ZeroReference);
    }
    let n: u32 = nominal_mv as u32;
    let c: u32 = ref_cal_raw as u32;
    assert(n * c <= 0xffff * 0xffff) by (nonlinear_arith)
        requires
            n <= 0xffff,
            c <= 0xffff,
    ;
    let product: u32 = n * c;
    assert(product / (ref_raw as u32) <= product) by (nonlinear_arith)
        requires
            ref_raw >= 1,
    ;
    Ok(product / (ref_raw as u32))
}

/// Conversion resolution of the analog front-end.
#[derive(Debug, Clone, Copy, PartialEq, Eq, Structural)]
pub enum Resolution {
    Six,
    Eight,
    Ten,
    Twelve,
}

impl Resolution {
    pub open spec fn bits_spec(self) -> nat {
        match self {
            Resolution::Six => 6,
            Resolution::Eight => 8,
            Resolution::Ten => 10,
            Resolution::Twelve => 12,
        }
    }

    /// Largest code at this resolution: `2^bits - 1`.
    pub open spec fn full_scale_spec(self) -> int {
        vstd::arithmetic::power2::pow2(self.bits_spec()) - 1
    }

    /// Number of bits per conversion.
    pub fn bits(self) -> (r: u32)
        ensures
            r == self.bits_spec(),
    {
        match self {
            Resolution::Six => 6,
            Resolution::Eight => 8,
            Resolution::Ten => 10,
            Resolution::Twelve => 12,
        }
    }

    /// Largest code at this resolution.
    pub fn full_scale(self) -> (r: u32)
        ensures
            r == self.full_scale_spec(),
            r >= 63,
    {
        proof {
            vstd::arithmetic::power2::lemma2_to64();
        }
        match self {
            Resolution::Six => 63,
            Resolution::Eight => 255,
            Resolution::Ten => 1023,
            Resolution::Twelve => 4095,
        }
    }
}

/// A raw code scaled linearly against the full-scale code and the supply voltage.
pub open spec fn channel_mv_spec(raw: u16, supply_mv: u32, resolution: Resolution) -> int {
    (raw as int * supply_mv as int) / resolution.full_scale_spec()
}

/// Millivolts on a channel: `raw * supply_mv / (2^bits - 1)`, truncating division.
pub fn channel_millivolts(raw: u16, supply_mv: u32, resolution: Resolution) -> (r: u64)
    ensures
        r == channel_mv_spec(raw, supply_mv, resolution),
{
    let full: u32 = resolution.full_scale();
    let a: u64 = raw as u64;
    let b: u64 = supply_mv as u64;
    assert(a * b <= 0xffff * 0xffff_ffff) by (nonlinear_arith)
        requires
            a <= 0xffff,
            b <= 0xffff_ffff,
    ;
    (a * b) / (full as u64)
}

/// The temperature code corrected for the deviation of the supply from its nominal value.
pub open spec fn corrected_raw_spec(raw_temp: u16, supply_mv: u32, nominal_mv: u16) -> int
    recommends
        nominal_mv > 0,
{
    (raw_temp as int * supply_mv as int) / (nominal_mv as int)
}

/// Temperature in hundredths of a degree Celsius, rounded down:
/// `30 + (corrected - cal30) * 100 / (cal130 - cal30)` degrees.
pub open spec fn temperature_centi_spec(
    raw_temp: u16,
    supply_mv: u32,
    nominal_mv: u16,
    cal30_raw: u16,
    cal130_raw: u16,
) -> int
    recommends
        nominal_mv > 0,
        cal30_raw != cal130_raw,
{
    let c = corrected_raw_spec(raw_temp, supply_mv, nominal_mv);
    if cal130_raw > cal30_raw {
        3000 + ((c - cal30_raw) * 10000) / (cal130_raw - cal30_raw)
    } else {
        3000 + ((cal30_raw - c) * 10000) / (cal30_raw - cal130_raw)
    }
}

proof fn lemma_floor_of_negated(m: int, d: int)
    requires
        m >= 0,
        d > 0,
    ensures
        (-m) / d == -((m + d - 1) / d),
{
    let q = (m + d - 1) / d;
    let r = (m + d - 1) % d;
    vstd::arithmetic::div_mod::lemma_fundamental_div_mod(m + d - 1, d);
    assert(-m == (-q) * d + (d - 1 - r)) by (nonlinear_arith)
        requires
            m + d - 1 == d * q + r,
    ;
    lemma_fundamental_div_mod_converse(-m, d, -q, d - 1 - r);
}

/// Floor of `s * mag / den` for a sign `s` (negative when `negative`).
fn signed_floor_div(mag: u64, den: u64, negative: bool) -> (r: i64)
    requires
        den > 0,
        mag < 0x4000_0000_0000_0000,
    ensures
        negative ==> r == (-(mag as int)) / (den as int),
        !negative ==> r == (mag as int) / (den as int),
        -(mag as int) - 1 <= r <= mag,
{
    if negative {
        proof {
            lemma_floor_of_negated(mag as int, den as int);
        }
        let q: u64 = mag / den + if mag % den == 0 { 0u64 } else { 1u64 };
        proof {
            let m = mag as int;
            let d = den as int;
            vstd::arithmetic::div_mod::lemma_fundamental_div_mod(m, d);
            let qq = m / d;
            assert((qq + 1) * d == qq * d + d) by (nonlinear_arith);
            assert(d * qq == qq * d) by (nonlinear_arith);
            if m % d == 0 {
                lemma_fundamental_div_mod_converse(m + d - 1, d, m / d, d - 1);
            } else {
                lemma_fundamental_div_mod_converse(m + d - 1, d, m / d + 1, m % d - 1);
            }
            assert(m / d <= m) by (nonlinear_arith)
                requires
                    m >= 0,
                    d >= 1,
            ;
        }
        -(q as i64)
    } else {
        proof {
            assert(mag as int / den as int <= mag as int) by (nonlinear_arith)
                requires
                    den >= 1,
            ;
        }
        (mag / den) as i64
    }
}

/// Temperature in hundredths of a degree Celsius from the temperature-sensor code,
/// corrected for the supply voltage and interpolated between the two factory points.
pub fn temperature_celsius(
    raw_temp: u16,
    supply_mv: u32,
    nominal_mv: u16,
    cal30_raw: u16,
    cal130_raw: u16,
) -> (r: Result<i64, ConversionError>)
    ensures
        nominal_mv == 0 ==> r == Err::<i64, ConversionError>(ConversionError::ZeroNominalSupply),
        nominal_mv != 0 && cal30_raw == cal130_raw ==> r == Err::<i64, ConversionError>(
            ConversionError::EqualCalibrationPoints,
        ),
        nominal_mv != 0 && cal30_raw != cal130_raw ==> r == Ok::<i64, ConversionError>(
            temperature_centi_spec(raw_temp, supply_mv, nominal_mv, cal30_raw, cal130_raw) as i64,
        ),
        nominal_mv != 0 && cal30_raw != cal130_raw ==> i64::MIN <= temperature_centi_spec(
            raw_temp,
            supply_mv,
            nominal_mv,
            cal30_raw,
            cal130_raw,
        ) <= i64::MAX,
{
    if nominal_mv == 0 {
        return Err(ConversionError::ZeroNominalSupply);
    }
    if cal30_raw == cal130_raw {
        return Err(ConversionError::EqualCalibrationPoints);
    }
    let a: u64 = raw_temp as u64;
    let b: u64 = supply_mv as u64;
    assert(a * b <= 0xffff * 0xffff_ffff) by (nonlinear_arith)
        requires
            a <= 0xffff,
            b <= 0xffff_ffff,
    ;
    let corrected: u64 = (a * b) / (nominal_mv as u64);
    assert(corrected <= a * b) by (nonlinear_arith)
        requires
            corrected == (a * b) / (nominal_mv as int),
            nominal_mv >= 1,
    ;
    let cal30: u64 = cal30_raw as u64;
    let cal130: u64 = cal130_raw as u64;
    let (diff, negative): (u64, bool) = if corrected >= cal30 {
        (corrected - cal30, false)
    } else {
        (cal30 - corrected, true)
    };
    let (den, flip): (u64, bool) = if cal130 > cal30 {
        (cal130 - cal30, false)
    } else {
        (cal30 - cal130, true)
    };
    assert(diff * 10000 < 0x4000_0000_0000_0000) by (nonlinear_arith)
        requires
            diff <= 0xffff * 0xffff_ffff,
    ;
    let q: i64 = signed_floor_div(diff * 10000, den, negative != flip);
    proof {
        let c = corrected_raw_spec(raw_temp, supply_mv, nominal_mv);
        assert(c == corrected as int);
        if cal130_raw > cal30_raw {
            assert((c - cal30_raw) * 10000 == if negative { -(diff * 10000) } else { diff * 10000 });
        } else {
            assert((cal30_raw - c) * 10000 == if negative { diff * 10000 } else { -(diff * 10000) });
        }
    }
    Ok(3000 + q)
}

} // verus!
