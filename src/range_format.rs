//! Range labels: a distance in meters written for display in meters,
//! kilometers or nautical miles.
//!
//! All arithmetic is exact on integers: a distance of `m` meters is
//! `m / 1852` nautical miles, compared and rounded as a rational number.
//! Kilometers are written with one decimal place as the double nearest to
//! `m / 1000` is, which differs from exact rounding only at half-tenths.
use vstd::prelude::*;
use crate::text::{decimal, push_decimal};

verus! {

/// Meters in one nautical mile.
pub const NM_IN_METERS: u64 = 1852;

/// Below this many meters (1/4 NM), mixed mode shows meters.
pub const MIXED_THRESHOLD_METERS: u32 = 463;

/// From this many meters on, metric labels are in kilometers.
pub const METERS_IN_KM: u32 = 1000;

/// How a range is shown.
#[derive(Clone, Copy, Debug, PartialEq, Eq, Structural)]
pub enum RangeUnitPreference {
    /// Always in meters or kilometers.
    Metric,
    /// Always in nautical miles.
    Nautical,
    /// Meters below 1/4 NM, nautical miles from there on.
    Mixed,
}

impl Default for RangeUnitPreference {
    fn default() -> (r: Self)
        ensures
            r == RangeUnitPreference::Mixed,
    {
        RangeUnitPreference::Mixed
    }
}

/// A range with its display label.
#[derive(Clone, Debug)]
pub struct FormattedRange {
    /// The range in meters, as given.
    pub meters: u32,
    /// The label in the chosen unit.
    pub label: String,
    /// The unit of the label: `m` or `NM`.
    pub unit: String,
}

/// `n / d` rounded to the nearest integer, a tie going to the even one.
pub open spec fn round_half_even(n: nat, d: nat) -> nat
    recommends
        d > 0,
{
    let q = n / d;
    let r = n % d;
    if 2 * r > d || (2 * r == d && q % 2 == 1) {
        q + 1
    } else {
        q
    }
}

/// `1000 * 2^52`: a distance in meters doubled up to this scale holds the
/// 53-bit significand of its value in kilometers as a double.
pub const KM_SIGNIFICAND_SCALE: u64 = 4503599627370496000;

/// `n` doubled until it reaches `1000 * 2^52`. For `1000 <= m < 2000 * 2^52`
/// this is `m * 2^k` with `k = 52 - floor(log2(m / 1000))`, so that
/// `normalized(m) / 1000` lies in `[2^52, 2^53)`.
pub open spec fn normalized(n: nat) -> nat
    decreases (if n < KM_SIGNIFICAND_SCALE {
        KM_SIGNIFICAND_SCALE - n
    } else {
        0
    }),
{
    if n == 0 || n >= KM_SIGNIFICAND_SCALE {
        n
    } else {
        normalized(2 * n)
    }
}

/// The double nearest to `m / 1000` (its significand being
/// `normalized(m) / 1000` rounded to nearest, ties to even) lies above
/// `m / 1000`.
pub open spec fn km_double_above(m: nat) -> bool {
    let n = normalized(m);
    n % 1000 > 500 || (n % 1000 == 500 && (n / 1000) % 2 == 1)
}

/// The double nearest to `m / 1000` equals `m / 1000`.
pub open spec fn km_double_exact(m: nat) -> bool {
    normalized(m) % 1000 == 0
}

/// `m / 1000` kilometers in tenths, as the double nearest to it is written
/// with one decimal place: away from a half-tenth the nearest tenth; at a
/// half-tenth up when that double lies above it, to even when the double
/// is exact, down otherwise.
pub open spec fn km_tenths(m: nat) -> nat {
    let q = m / 100;
    let r = m % 100;
    if r > 50 {
        q + 1
    } else if r < 50 {
        q
    } else if km_double_above(m) {
        q + 1
    } else if km_double_exact(m) && q % 2 == 1 {
        q + 1
    } else {
        q
    }
}

/// A count of tenths written with one decimal place: `23` is `2.3`.
pub open spec fn tenths_text(t: nat) -> Seq<char> {
    decimal(t / 10) + "."@ + decimal(t % 10)
}

/// A distance written in meters below one kilometer, else in kilometers
/// with one decimal place, the decimal left out when the value is whole.
pub open spec fn meters_label(m: nat) -> Seq<char> {
    if m < METERS_IN_KM {
        decimal(m) + "m"@
    } else if m % 1000 == 0 {
        decimal(m / 1000) + "km"@
    } else {
        tenths_text(km_tenths(m)) + "km"@
    }
}

/// `m` meters lie within 0.01 NM of `p / q` NM.
pub open spec fn near_fraction(m: nat, p: nat, q: nat) -> bool {
    let a = 100 * q * m;
    let b = 100 * p * NM_IN_METERS;
    (if a >= b {
        a - b
    } else {
        b - a
    }) < NM_IN_METERS * q
}

/// A distance written in nautical miles: a named fraction where it lies
/// within 0.01 NM of one, else a whole number where the fractional part is
/// below 0.01, else one decimal place.
pub open spec fn nautical_label(m: nat) -> Seq<char> {
    if near_fraction(m, 1, 16) {
        "1/16 NM"@
    } else if near_fraction(m, 1, 8) {
        "1/8 NM"@
    } else if near_fraction(m, 1, 4) {
        "1/4 NM"@
    } else if near_fraction(m, 1, 2) {
        "1/2 NM"@
    } else if near_fraction(m, 3, 4) {
        "3/4 NM"@
    } else if near_fraction(m, 3, 2) {
        "1.5 NM"@
    } else if 100 * (m % NM_IN_METERS as nat) < NM_IN_METERS {
        decimal(m / NM_IN_METERS as nat) + " NM"@
    } else {
        tenths_text(round_half_even(10 * m, NM_IN_METERS as nat)) + " NM"@
    }
}

/// Whether a range is shown in meters under a preference.
pub open spec fn shows_meters(m: nat, preference: RangeUnitPreference) -> bool {
    match preference {
        RangeUnitPreference::Metric => true,
        RangeUnitPreference::Nautical => false,
        RangeUnitPreference::Mixed => m < MIXED_THRESHOLD_METERS,
    }
}

/// The label of a range under a preference.
pub open spec fn range_label(m: nat, preference: RangeUnitPreference) -> Seq<char> {
    if shows_meters(m, preference) {
        meters_label(m)
    } else {
        nautical_label(m)
    }
}

/// The unit of a range's label under a preference.
pub open spec fn range_unit(m: nat, preference: RangeUnitPreference) -> Seq<char> {
    if shows_meters(m, preference) {
        "m"@
    } else {
        "NM"@
    }
}

/// Appends `n / d` rounded half to even, with one decimal place written.
fn push_rounded(s: &mut String, n: u64, d: u64)
    requires
        d > 0,
        n < u64::MAX,
    ensures
        final(s)@ == old(s)@ + tenths_text(round_half_even(n as nat, d as nat)),
{
    let q = n / d;
    let r = n % d;
    assert(q <= n) by (nonlinear_arith)
        requires
            d > 0,
            q == n / d,
    ;
    let t: u64 = if r > d - r || (r == d - r && q % 2 == 1) {
        q + 1
    } else {
        q
    };
    push_decimal(s, t / 10);
    s.append(".");
    push_decimal(s, t % 10);
    assert(final(s)@ =~= old(s)@ + tenths_text(round_half_even(n as nat, d as nat)));
}

/// `m / 1000` kilometers in tenths, rounded as its nearest double is.
fn km_tenths_exec(m: u32) -> (t: u64)
    requires
        m >= METERS_IN_KM,
    ensures
        t == km_tenths(m as nat),
{
    let q = (m / 100) as u64;
    let r = m % 100;
    if r != 50 {
        return if r > 50 {
            q + 1
        } else {
            q
        };
    }
    let mut n: u64 = m as u64;
    while n < KM_SIGNIFICAND_SCALE
        invariant
            0 < n < 2 * KM_SIGNIFICAND_SCALE,
            normalized(n as nat) == normalized(m as nat),
        decreases (if n < KM_SIGNIFICAND_SCALE {
            KM_SIGNIFICAND_SCALE - n
        } else {
            0
        }),
    {
        n = 2 * n;
    }
    let rb = n % 1000;
    if rb > 500 || (rb == 500 && (n / 1000) % 2 == 1) {
        q + 1
    } else if rb == 0 && q % 2 == 1 {
        q + 1
    } else {
        q
    }
}

/// Formats a distance in meters, or in kilometers from one kilometer on.
pub fn format_meters(meters: u32) -> (r: String)
    ensures
        r@ == meters_label(meters as nat),
{
    let mut s = String::new();
    if meters < METERS_IN_KM {
        push_decimal(&mut s, meters as u64);
        s.append("m");
    } else if meters % 1000 == 0 {
        push_decimal(&mut s, (meters / 1000) as u64);
        s.append("km");
    } else {
        let t = km_tenths_exec(meters);
        push_decimal(&mut s, t / 10);
        s.append(".");
        push_decimal(&mut s, t % 10);
        s.append("km");
    }
    assert(s@ =~= meters_label(meters as nat));
    s
}

fn near_fraction_exec(m: u32, p: u64, q: u64) -> (r: bool)
    requires
        p <= 3,
        1 <= q <= 16,
    ensures
        r == near_fraction(m as nat, p as nat, q as nat),
{
    assert(100 * q * (m as u64) <= 1600 * 0xffff_ffff) by (nonlinear_arith)
        requires
            1 <= q <= 16,
            m <= 0xffff_ffff,
    ;
    let a: u64 = 100 * q * (m as u64);
    let b: u64 = 100 * p * NM_IN_METERS;
    let diff = if a >= b {
        a - b
    } else {
        b - a
    };
    diff < NM_IN_METERS * q
}

/// Formats a distance in nautical miles.
pub fn format_nautical(meters: u32) -> (r: String)
    ensures
        r@ == nautical_label(meters as nat),
{
    if near_fraction_exec(meters, 1, 16) {
        return String::from_str("1/16 NM");
    }
    if near_fraction_exec(meters, 1, 8) {
        return String::from_str("1/8 NM");
    }
    if near_fraction_exec(meters, 1, 4) {
        return String::from_str("1/4 NM");
    }
    if near_fraction_exec(meters, 1, 2) {
        return String::from_str("1/2 NM");
    }
    if near_fraction_exec(meters, 3, 4) {
        return String::from_str("3/4 NM");
    }
    if near_fraction_exec(meters, 3, 2) {
        return String::from_str("1.5 NM");
    }
    let m = meters as u64;
    let mut s = String::new();
    if 100 * (m % NM_IN_METERS) < NM_IN_METERS {
        push_decimal(&mut s, m / NM_IN_METERS);
    } else {
        push_rounded(&mut s, 10 * m, NM_IN_METERS);
    }
    s.append(" NM");
    assert(s@ =~= nautical_label(meters as nat));
    s
}

/// Formats a range for display under a unit preference.
pub fn format_range(meters: u32, preference: RangeUnitPreference) -> (r: FormattedRange)
    ensures
        r.meters == meters,
        r.label@ == range_label(meters as nat, preference),
        r.unit@ == range_unit(meters as nat, preference),
{
    let in_meters = match preference {
        RangeUnitPreference::Metric => true,
        RangeUnitPreference::Nautical => false,
        RangeUnitPreference::Mixed => meters < MIXED_THRESHOLD_METERS,
    };
    if in_meters {
        FormattedRange { meters, label: format_meters(meters), unit: String::from_str("m") }
    } else {
        FormattedRange { meters, label: format_nautical(meters), unit: String::from_str("NM") }
    }
}

/// Formats every range of a table, in order.
pub fn format_range_table(ranges: &[u32], preference: RangeUnitPreference) -> (r: Vec<
    FormattedRange,
>)
    ensures
        r@.len() == ranges@.len(),
        forall|i: int|
            0 <= i < ranges@.len() ==> {
                &&& (#[trigger] r@[i]).meters == ranges@[i]
                &&& r@[i].label@ == range_label(ranges@[i] as nat, preference)
                &&& r@[i].unit@ == range_unit(ranges@[i] as nat, preference)
            },
{
    let mut out: Vec<FormattedRange> = Vec::new();
    let mut i: usize = 0;
    while i < ranges.len()
        invariant
            i <= ranges@.len(),
            out@.len() == i,
            forall|j: int|
                0 <= j < i ==> {
                    &&& (#[trigger] out@[j]).meters == ranges@[j]
                    &&& out@[j].label@ == range_label(ranges@[j] as nat, preference)
                    &&& out@[j].unit@ == range_unit(ranges@[j] as nat, preference)
                },
        decreases ranges@.len() - i,
    {
        out.push(format_range(ranges[i], preference));
        i = i + 1;
    }
    out
}

/// Below one kilometer a metric label is the number of meters followed by `m`.
pub proof fn meters_below_km(meters: u32)
    requires
        meters < METERS_IN_KM,
    ensures
        meters_label(meters as nat) == decimal(meters as nat) + "m"@,
{
}

/// Mixed mode shows meters exactly below 1/4 NM, and nautical miles from there on.
pub proof fn mixed_threshold(meters: u32)
    ensures
        range_unit(meters as nat, RangeUnitPreference::Mixed) == (if meters
            < MIXED_THRESHOLD_METERS {
            "m"@
        } else {
            "NM"@
        }),
{
}

} // verus!
