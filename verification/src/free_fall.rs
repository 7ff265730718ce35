//! Free fall under damping: the velocity after a number of steps, held
//! against the sum of the geometric series that it follows.

use vstd::prelude::*;
use crate::fixed::{Fixed, SCALE, lemma_mul_raw_neg, lemma_mul_raw_nonneg, mul_raw, tdiv};
use crate::integrator::{stepped_velocity, velocity_after};
use crate::vector::{Vec3, abs_int};

verus! {

/// `SCALE` to the power `n`.
pub open spec fn scale_power(n: nat) -> int
    decreases n,
{
    if n == 0 {
        1
    } else {
        (SCALE as int) * scale_power((n - 1) as nat)
    }
}

/// `d` to the power `n`.
pub open spec fn power(d: int, n: nat) -> int
    decreases n,
{
    if n == 0 {
        1
    } else {
        d * power(d, (n - 1) as nat)
    }
}

/// The geometric series of the damping `d / SCALE`, from its first to its
/// `n`-th power, in units of `SCALE` to the power `n`:
/// `d * SCALE^(n-1) + d^2 * SCALE^(n-2) + ... + d^n`.
pub open spec fn damping_series(d: int, n: nat) -> int
    decreases n,
{
    if n == 0 {
        0
    } else {
        d * (scale_power((n - 1) as nat) + damping_series(d, (n - 1) as nat))
    }
}

/// The speed along one axis, in raw units, of a body that falls from rest
/// for `n` steps and gains `gain` per step before damping by `d / SCALE`.
pub open spec fn fall_speed(gain: int, d: int, n: nat) -> int
    decreases n,
{
    if n == 0 {
        0
    } else {
        mul_raw(fall_speed(gain, d, (n - 1) as nat) + gain, d)
    }
}

/// A power of `SCALE` is positive.
pub proof fn lemma_scale_power_positive(n: nat)
    ensures
        scale_power(n) >= 1,
    decreases n,
{
    if n > 0 {
        lemma_scale_power_positive((n - 1) as nat);
        assert((SCALE as int) * scale_power((n - 1) as nat) >= 1) by (nonlinear_arith)
            requires
                scale_power((n - 1) as nat) >= 1,
                SCALE == 1_000_000,
        ;
    }
}

/// The series has the closed form of a geometric sum:
/// `(SCALE - d) * series(n) == d * (SCALE^n - d^n)`.
pub proof fn lemma_series_closed_form(d: int, n: nat)
    ensures
        (SCALE - d) * damping_series(d, n) == d * (scale_power(n) - power(d, n)),
    decreases n,
{
    let s = SCALE as int;
    if n == 0 {
        assert((s - d) * 0 == d * (1 - 1)) by (nonlinear_arith);
    } else {
        let m = (n - 1) as nat;
        lemma_series_closed_form(d, m);
        let g = damping_series(d, m);
        let p = scale_power(m);
        let q = power(d, m);
        assert((s - d) * (d * (p + g)) == d * (s * p - d * q)) by (nonlinear_arith)
            requires
                (s - d) * g == d * (p - q),
        ;
    }
}

/// What rounding toward zero takes off a quotient by `SCALE` is less than `SCALE`.
pub proof fn lemma_tdiv_scale_remainder(x: int)
    ensures
        -(SCALE as int) < x - tdiv(x, SCALE as int) * SCALE < SCALE,
{
    let s = SCALE as int;
    if x >= 0 {
        assert(0 <= x - (x / s) * s < s) by (nonlinear_arith)
            requires
                s == 1_000_000,
                x >= 0,
        ;
    } else {
        assert(0 <= (-x) - ((-x) / s) * s < s) by (nonlinear_arith)
            requires
                s == 1_000_000,
                x < 0,
        ;
        assert((-((-x) / s)) * s == -(((-x) / s) * s)) by (nonlinear_arith);
    }
}

/// A product with a factor between zero and one is no larger in magnitude
/// than the other factor.
pub proof fn lemma_mul_raw_shrinks(a: int, d: int)
    requires
        0 <= d <= SCALE,
    ensures
        abs_int(mul_raw(a, d)) <= abs_int(a),
{
    if a >= 0 {
        lemma_mul_raw_nonneg(a, d);
    } else {
        lemma_mul_raw_nonneg(-a, d);
        lemma_mul_raw_neg(a, d);
    }
}

/// A falling body is never faster than the sum of what it has gained.
pub proof fn lemma_fall_speed_bounded(gain: int, d: int, n: nat)
    requires
        0 <= d <= SCALE,
    ensures
        abs_int(fall_speed(gain, d, n)) <= n * abs_int(gain),
    decreases n,
{
    if n == 0 {
        assert(0 * abs_int(gain) == 0) by (nonlinear_arith);
    } else {
        let m = (n - 1) as nat;
        lemma_fall_speed_bounded(gain, d, m);
        lemma_mul_raw_shrinks(fall_speed(gain, d, m) + gain, d);
        assert(m * abs_int(gain) + abs_int(gain) == n * abs_int(gain)) by (nonlinear_arith)
            requires
                m + 1 == n,
        ;
    }
}

/// The speed after `n` steps of free fall is the gain per step times the
/// geometric series of the damping, up to one raw unit for every step: with
/// both sides in units of `SCALE^n`,
/// `|speed(n) * SCALE^n - gain * series(n)| <= n * SCALE^n`.
pub proof fn lemma_fall_speed_follows_series(gain: int, d: int, n: nat)
    requires
        0 <= d <= SCALE,
    ensures
        abs_int(fall_speed(gain, d, n) * scale_power(n) - gain * damping_series(d, n)) <= n
            * scale_power(n),
    decreases n,
{
    let s = SCALE as int;
    if n == 0 {
        assert(0 * scale_power(0) - gain * 0 == 0) by (nonlinear_arith);
        assert(0 * scale_power(0) == 0) by (nonlinear_arith);
    } else {
        let m = (n - 1) as nat;
        lemma_fall_speed_follows_series(gain, d, m);
        lemma_scale_power_positive(m);
        let v = fall_speed(gain, d, m);
        let p = scale_power(m);
        let g = damping_series(d, m);
        let x = (v + gain) * d;
        let w = tdiv(x, s);
        let r = x - w * s;
        lemma_tdiv_scale_remainder(x);
        let e = v * p - gain * g;
        let e_next = w * (s * p) - gain * (d * (p + g));
        assert(fall_speed(gain, d, n) == w);
        assert(w * (s * p) == x * p - r * p) by (nonlinear_arith)
            requires
                r == x - w * s,
        ;
        assert(x * p == d * (v * p) + gain * (d * p)) by (nonlinear_arith)
            requires
                x == (v + gain) * d,
        ;
        assert(gain * (d * (p + g)) == gain * (d * p) + d * (gain * g)) by (nonlinear_arith);
        assert(d * e == d * (v * p) - d * (gain * g)) by (nonlinear_arith)
            requires
                e == v * p - gain * g,
        ;
        assert(e_next == d * e - r * p);
        assert(abs_int(d * e) <= s * (m * p)) by (nonlinear_arith)
            requires
                0 <= d <= s,
                abs_int(e) <= m * p,
                p >= 1,
        ;
        assert(abs_int(r * p) <= s * p) by (nonlinear_arith)
            requires
                -s < r < s,
                p >= 1,
        ;
        assert(s * (m * p) + s * p == n * (s * p)) by (nonlinear_arith)
            requires
                m + 1 == n,
        ;
    }
}

/// The gain per step along each axis, times the number of steps and one
/// more, stays inside the range of the numbers: nothing is clamped on the way.
pub open spec fn fall_unclamped(gravity: Vec3, dt: Fixed, steps: nat) -> bool {
    &&& (steps + 1) * abs_int(mul_raw(gravity.x@, dt@)) <= i64::MAX
    &&& (steps + 1) * abs_int(mul_raw(gravity.y@, dt@)) <= i64::MAX
    &&& (steps + 1) * abs_int(mul_raw(gravity.z@, dt@)) <= i64::MAX
}

/// The velocity of a body in free fall from rest, axis by axis.
pub open spec fn fall_velocity(gravity: Vec3, damping: Fixed, dt: Fixed, steps: nat) -> Vec3 {
    Vec3 {
        x: Fixed { raw: fall_speed(mul_raw(gravity.x@, dt@), damping@, steps) as i64 },
        y: Fixed { raw: fall_speed(mul_raw(gravity.y@, dt@), damping@, steps) as i64 },
        z: Fixed { raw: fall_speed(mul_raw(gravity.z@, dt@), damping@, steps) as i64 },
    }
}

/// What stays in range for one more step stays in range for one step fewer.
proof fn lemma_fewer_steps(gain: int, m: nat)
    requires
        gain >= 0,
    ensures
        (m + 1) * gain <= (m + 2) * gain,
        gain <= (m + 2) * gain,
{
    assert((m + 1) * gain <= (m + 2) * gain && gain <= (m + 2) * gain) by (nonlinear_arith)
        requires
            gain >= 0,
            m >= 0,
    ;
}

/// One step of free fall along one axis, when nothing is clamped.
proof fn lemma_fall_step(speed: int, gain: int, d: int, n: nat)
    requires
        0 <= d <= SCALE,
        abs_int(speed) <= n * abs_int(gain),
        (n + 2) * abs_int(gain) <= i64::MAX,
    ensures
        i64::MIN <= gain <= i64::MAX,
        i64::MIN <= speed <= i64::MAX,
        i64::MIN <= speed + gain <= i64::MAX,
        i64::MIN <= mul_raw(speed + gain, d) <= i64::MAX,
{
    assert(abs_int(gain) <= (n + 2) * abs_int(gain) && n * abs_int(gain) + abs_int(gain) <= (n + 2)
        * abs_int(gain)) by (nonlinear_arith)
        requires
            n >= 0,
            abs_int(gain) >= 0,
    ;
    lemma_mul_raw_shrinks(speed + gain, d);
}

/// A dynamic body that starts at rest and meets nothing has, after `steps`
/// steps under constant gravity and a damping between zero and one, along
/// every axis the speed that follows the damped geometric series.
pub proof fn lemma_free_fall_velocity(gravity: Vec3, damping: Fixed, dt: Fixed, steps: nat)
    requires
        0 <= damping@ <= SCALE,
        fall_unclamped(gravity, dt, steps),
    ensures
        velocity_after(Vec3::zero_spec(), gravity, damping, dt, steps) == fall_velocity(
            gravity,
            damping,
            dt,
            steps,
        ),
        velocity_after(Vec3::zero_spec(), gravity, damping, dt, steps).x@ == fall_speed(
            mul_raw(gravity.x@, dt@),
            damping@,
            steps,
        ),
        velocity_after(Vec3::zero_spec(), gravity, damping, dt, steps).y@ == fall_speed(
            mul_raw(gravity.y@, dt@),
            damping@,
            steps,
        ),
        velocity_after(Vec3::zero_spec(), gravity, damping, dt, steps).z@ == fall_speed(
            mul_raw(gravity.z@, dt@),
            damping@,
            steps,
        ),
    decreases steps,
{
    let gx = mul_raw(gravity.x@, dt@);
    let gy = mul_raw(gravity.y@, dt@);
    let gz = mul_raw(gravity.z@, dt@);
    if steps > 0 {
        let m = (steps - 1) as nat;
        lemma_fewer_steps(abs_int(gx), m);
        lemma_fewer_steps(abs_int(gy), m);
        lemma_fewer_steps(abs_int(gz), m);
        assert(fall_unclamped(gravity, dt, m));
        lemma_free_fall_velocity(gravity, damping, dt, m);
        let before = velocity_after(Vec3::zero_spec(), gravity, damping, dt, m);
        lemma_fall_speed_bounded(gx, damping@, m);
        lemma_fall_speed_bounded(gy, damping@, m);
        lemma_fall_speed_bounded(gz, damping@, m);
        lemma_fall_step(before.x@, gx, damping@, m);
        lemma_fall_step(before.y@, gy, damping@, m);
        lemma_fall_step(before.z@, gz, damping@, m);
        assert(velocity_after(Vec3::zero_spec(), gravity, damping, dt, steps) == stepped_velocity(
            before,
            gravity,
            damping,
            dt,
        ));
    } else {
        assert(1 * abs_int(gx) == abs_int(gx) && 1 * abs_int(gy) == abs_int(gy) && 1 * abs_int(gz)
            == abs_int(gz)) by (nonlinear_arith);
    }
}

} // verus!
