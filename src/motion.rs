//! Trajectory offsets in whole pixels: a bounded wave for sinusoidal motion
//! and a cubic bump for diverging shots.

use vstd::prelude::*;
use vstd::arithmetic::div_mod::{lemma_div_is_ordered, lemma_div_by_multiple, lemma_div_pos_is_pos};

verus! {

/// Half a turn in milliradians (pi, rounded).
pub const HALF_TURN_MRAD: u64 = 3142;

/// Largest wave amplitude, in pixels.
pub const WAVE_AMPLITUDE_MAX: u64 = 1048576;

/// Largest magnitude of a diverging shot's bump factor, in pixels.
pub const BUMP_HEIGHT_MAX: i64 = 1048576;

/// Largest bump width of a diverging shot, in milliseconds.
pub const BUMP_WIDTH_MAX: u64 = 4294967296;

/// Largest flight time for which trajectories are evaluated, in milliseconds.
pub const FLIGHT_TIME_MAX: u64 = 17179869184;

/// The phase reached after `t` milliseconds at `angular_vel` radians per
/// second, in milliradians within one full turn.
pub open spec fn phase(angular_vel: int, t: int) -> int {
    (angular_vel * t) % (2 * HALF_TURN_MRAD as int)
}

/// `amp * sin(phase)` by Bhaskara I's rational approximation of the sine,
/// evaluated in whole numbers on each half turn and rounded towards zero.
pub open spec fn wave_spec(amp: int, angular_vel: int, t: int) -> int {
    let p = HALF_TURN_MRAD as int;
    let ph = phase(angular_vel, t);
    let q = if ph < p { ph } else { ph - p };
    let mag = amp * (16 * q * (p - q)) / (5 * p * p - 4 * q * (p - q));
    if ph < p { mag } else { -mag }
}

/// Rust's division, which rounds towards zero, for a positive divisor.
pub open spec fn trunc_div(n: int, d: int) -> int {
    if n >= 0 { n / d } else { -((-n) / d) }
}

/// Sideways offset of a diverging shot after `t` milliseconds:
/// `a * (t/b)^3 - a * (t/b)^2`, rounded towards zero.
pub open spec fn bump_spec(a: int, b: int, t: int) -> int {
    trunc_div(a * (t * t * (t - b)), b * b * b)
}

/// The wave offset after `t` milliseconds; never larger than the amplitude.
pub fn wave(amplitude: u64, angular_vel: u64, t: u64) -> (r: i64)
    requires
        amplitude <= WAVE_AMPLITUDE_MAX,
    ensures
        r as int == wave_spec(amplitude as int, angular_vel as int, t as int),
        -(amplitude as int) <= r <= amplitude,
{
    let p = HALF_TURN_MRAD;
    proof {
        assert(angular_vel * t <= u64::MAX * u64::MAX) by (nonlinear_arith)
            requires
                angular_vel <= u64::MAX,
                t <= u64::MAX,
        ;
    }
    let ph = ((angular_vel as u128) * (t as u128) % (2 * p as u128)) as u64;
    let first_half = ph < p;
    let q = if first_half { ph } else { ph - p };
    proof {
        assert(q * (p - q) <= p * p && 0 <= q * (p - q)) by (nonlinear_arith)
            requires
                0 <= q < p,
        ;
        assert(4 * q * (p - q) <= p * p) by (nonlinear_arith)
            requires
                0 <= q < p,
        ;
        assert(16 * q * (p - q) <= 16 * p * p && 0 <= 16 * q * (p - q)) by (nonlinear_arith)
            requires
                0 <= q < p,
        ;
        assert(16 * q * (p - q) <= 5 * p * p - 4 * q * (p - q)) by (nonlinear_arith)
            requires
                4 * q * (p - q) <= p * p,
        ;
    }
    let num = 16 * q * (p - q);
    let den = 5 * p * p - 4 * q * (p - q);
    proof {
        assert(num <= den);
        assert(amplitude * num <= amplitude * den) by (nonlinear_arith)
            requires
                num <= den,
                0 <= amplitude,
        ;
        assert(amplitude * num <= WAVE_AMPLITUDE_MAX * (16 * p * p)) by (nonlinear_arith)
            requires
                amplitude <= WAVE_AMPLITUDE_MAX,
                num <= 16 * p * p,
                0 <= num,
        ;
        lemma_div_is_ordered(amplitude * num, amplitude * den, den as int);
        lemma_div_by_multiple(amplitude as int, den as int);
        assert(0 <= amplitude * num) by (nonlinear_arith)
            requires
                0 <= num,
        ;
        lemma_div_pos_is_pos(amplitude * num, den as int);
    }
    let mag = (amplitude * num / den) as i64;
    if first_half {
        mag
    } else {
        -mag
    }
}

/// The sideways offset of a diverging shot after `t` milliseconds.
pub fn bump(a: i64, b: u64, t: u64) -> (r: i128)
    requires
        -BUMP_HEIGHT_MAX <= a <= BUMP_HEIGHT_MAX,
        0 < b <= BUMP_WIDTH_MAX,
        t <= FLIGHT_TIME_MAX,
    ensures
        r as int == bump_spec(a as int, b as int, t as int),
        -BUMP_HEIGHT_MAX * (FLIGHT_TIME_MAX * FLIGHT_TIME_MAX) * FLIGHT_TIME_MAX <= r
            <= BUMP_HEIGHT_MAX * (FLIGHT_TIME_MAX * FLIGHT_TIME_MAX) * FLIGHT_TIME_MAX,
{
    proof {
        assert(t * t <= FLIGHT_TIME_MAX * FLIGHT_TIME_MAX) by (nonlinear_arith)
            requires
                t <= FLIGHT_TIME_MAX,
        ;
    }
    let tt = (t as u128) * (t as u128);
    let diff = (t as i128) - (b as i128);
    let mag_diff: u128 = if diff >= 0 { diff as u128 } else { (-diff) as u128 };
    let mag_a: u128 = if a >= 0 { a as u128 } else { (-(a as i128)) as u128 };
    proof {
        assert(tt <= FLIGHT_TIME_MAX * FLIGHT_TIME_MAX) by (nonlinear_arith)
            requires
                tt == t * t,
                t <= FLIGHT_TIME_MAX,
        ;
        assert(mag_a * tt <= BUMP_HEIGHT_MAX * (FLIGHT_TIME_MAX * FLIGHT_TIME_MAX))
            by (nonlinear_arith)
            requires
                mag_a <= BUMP_HEIGHT_MAX,
                tt <= FLIGHT_TIME_MAX * FLIGHT_TIME_MAX,
        ;
        assert(mag_a * tt * mag_diff <= BUMP_HEIGHT_MAX * (FLIGHT_TIME_MAX * FLIGHT_TIME_MAX)
            * FLIGHT_TIME_MAX) by (nonlinear_arith)
            requires
                mag_a * tt <= BUMP_HEIGHT_MAX * (FLIGHT_TIME_MAX * FLIGHT_TIME_MAX),
                mag_diff <= FLIGHT_TIME_MAX,
                0 <= mag_a * tt,
        ;
        assert(b * b * b <= BUMP_WIDTH_MAX * BUMP_WIDTH_MAX * BUMP_WIDTH_MAX)
            by (nonlinear_arith)
            requires
                0 < b <= BUMP_WIDTH_MAX,
        ;
        assert(b * b * b > 0) by (nonlinear_arith)
            requires
                0 < b,
        ;
    }
    let m = mag_a * tt * mag_diff;
    proof {
        assert(b * b <= BUMP_WIDTH_MAX * BUMP_WIDTH_MAX) by (nonlinear_arith)
            requires
                0 < b <= BUMP_WIDTH_MAX,
        ;
    }
    let d = (b as u128) * (b as u128) * (b as u128);
    let q = m / d;
    proof {
        let n = a * (t * t * (t - b));
        assert(n == m || n == -m) by (nonlinear_arith)
            requires
                n == a * (t * t * (t - b)),
                m == mag_a * tt * mag_diff,
                tt == t * t,
                diff == t - b,
                mag_diff == (if diff >= 0 { diff as int } else { -diff }),
                mag_a == (if a >= 0 { a as int } else { -a }),
        ;
        assert((n >= 0 && n == m) || (n < 0 && n == -m)) by (nonlinear_arith)
            requires
                n == m || n == -m,
                m >= 0,
        ;
        lemma_div_pos_is_pos(m as int, d as int);
        lemma_div_is_ordered(0, m as int, d as int);
        assert(q <= m) by {
            lemma_div_is_ordered_by_denominator_one(m as int, d as int);
        }
    }
    let n_nonneg = (a >= 0) == (diff >= 0) || m == 0;
    proof {
        let n = a * (t * t * (t - b));
        assert(n_nonneg <==> n >= 0) by (nonlinear_arith)
            requires
                n == a * (t * t * (t - b)),
                (n >= 0 && n == m) || (n < 0 && n == -m),
                m >= 0,
                n_nonneg == ((a >= 0) == (diff >= 0) || m == 0),
                diff == t - b,
                tt == t * t,
                m == mag_a * tt * mag_diff,
                mag_diff == (if diff >= 0 { diff as int } else { -diff }),
                mag_a == (if a >= 0 { a as int } else { -a }),
        ;
    }
    if n_nonneg {
        q as i128
    } else {
        -(q as i128)
    }
}

/// Neither offset has moved at time zero.
pub proof fn lemma_offsets_at_zero(amp: int, angular_vel: int, a: int, b: int)
    requires
        amp >= 0,
        b > 0,
    ensures
        wave_spec(amp, angular_vel, 0) == 0,
        bump_spec(a, b, 0) == 0,
{
    assert(angular_vel * 0 == 0);
    assert(phase(angular_vel, 0) == 0);
    assert(a * (0 * 0 * (0 - b)) == 0) by (nonlinear_arith);
    let p = HALF_TURN_MRAD as int;
    assert(amp * (16 * 0 * (p - 0)) == 0) by (nonlinear_arith);
    assert(5 * p * p - 4 * 0 * (p - 0) > 0) by (nonlinear_arith)
        requires
            p == 3142,
    ;
    assert(0int / (5 * p * p - 4 * 0 * (p - 0)) == 0);
    assert(b * b * b > 0) by (nonlinear_arith)
        requires
            b > 0,
    ;
}

/// Dividing a non-negative number by a positive one never makes it larger.
proof fn lemma_div_is_ordered_by_denominator_one(x: int, d: int)
    requires
        0 <= x,
        1 <= d,
    ensures
        x / d <= x,
{
    vstd::arithmetic::div_mod::lemma_div_is_ordered_by_denominator(x, 1, d);
}

} // verus!
