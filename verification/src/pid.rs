use vstd::prelude::*;
use vstd::arithmetic::div_mod::{lemma_div_nonincreasing, lemma_div_pos_is_pos};

verus! {

/// One unit, in the fixed-point representation of this controller: every
/// gain, input and output is an integer count of millionths of a unit.
pub const FIXED_ONE: i64 = 1_000_000;

/// Largest magnitude, in millionths, that gains, inputs, the output limit
/// and the cycle length may take; it keeps every intermediate product of
/// the control law inside 128-bit arithmetic.
pub const MAX_MAGNITUDE: i64 = 1_000_000_000_000_000;

/// Machine division semantics by a positive divisor: the quotient is
/// rounded toward zero.
pub open spec fn div_trunc(a: int, b: int) -> int {
    if a >= 0 {
        a / b
    } else {
        -((-a) / b)
    }
}

/// `x` clamped into `[-limit, limit]`.
pub open spec fn clamp_to(x: int, limit: int) -> int {
    if x > limit {
        limit
    } else if x < -limit {
        -limit
    } else {
        x
    }
}

/// The derivative term of one step: the slope of the error over the cycle,
/// or zero on a zero-length cycle — the explicit guard against dividing by
/// a degenerate `dt`.
pub open spec fn derivative_term(error: int, previous_error: int, dt: int) -> int {
    if dt > 0 {
        div_trunc((error - previous_error) * (FIXED_ONE as int), dt)
    } else {
        0
    }
}

/// Truncating division by a positive divisor never grows a magnitude and
/// never flips a sign.
pub proof fn lemma_div_trunc_bound(a: int, b: int)
    requires
        1 <= b,
    ensures
        a >= 0 ==> 0 <= div_trunc(a, b) <= a,
        a < 0 ==> a <= div_trunc(a, b) <= 0,
{
    if a >= 0 {
        lemma_div_pos_is_pos(a, b);
        lemma_div_nonincreasing(a, b);
    } else {
        lemma_div_pos_is_pos(-a, b);
        lemma_div_nonincreasing(-a, b);
    }
}

/// Interval bound on a product: factors bounded in magnitude by `a_cap` and
/// `b_cap` give a product bounded by `a_cap * b_cap`.
proof fn lemma_mul_bounds(a: int, b: int, a_cap: int, b_cap: int)
    by (nonlinear_arith)
    requires
        -a_cap <= a <= a_cap,
        -b_cap <= b <= b_cap,
        0 <= a_cap,
        0 <= b_cap,
    ensures
        -(a_cap * b_cap) <= a * b <= a_cap * b_cap,
{
}

/// Machine division of `a` by the positive `b`, truncating toward zero.
fn div_trunc_i128(a: i128, b: i128) -> (r: i128)
    requires
        1 <= b,
        -(i128::MAX as int) <= a,
    ensures
        r == div_trunc(a as int, b as int),
{
    if a >= 0 {
        proof {
            lemma_div_pos_is_pos(a as int, b as int);
            lemma_div_nonincreasing(a as int, b as int);
        }
        let q: u128 = (a as u128) / (b as u128);
        q as i128
    } else {
        let neg: i128 = -a;
        proof {
            lemma_div_pos_is_pos(neg as int, b as int);
            lemma_div_nonincreasing(neg as int, b as int);
        }
        let m: u128 = (neg as u128) / (b as u128);
        -(m as i128)
    }
}

/// `x` clamped into `[-limit, limit]`, narrowing back to 64 bits.
fn clamp_i128(x: i128, limit: i64) -> (r: i64)
    requires
        0 < limit,
    ensures
        r == clamp_to(x as int, limit as int),
{
    let lim: i128 = limit as i128;
    if x > lim {
        limit
    } else if x < -lim {
        -limit
    } else {
        x as i64
    }
}

/// A PID controller with output saturation and integral anti-windup. All
/// quantities are fixed-point integers in millionths of a unit (`FIXED_ONE`
/// is 1.0): the gains and the saturation limit are fixed for the life of
/// the instance; the integral accumulator and the remembered error advance
/// with each `compute` call.
#[derive(Debug, Clone, Copy)]
pub struct PidController {
    pub kp: i64,
    pub ki: i64,
    pub kd: i64,
    pub output_limit: i64,
    pub integral: i64,
    pub previous_error: i64,
}

impl PidController {
    /// A controller as constructed: the given gains and limit, cleared state.
    pub open spec fn fresh(kp: i64, ki: i64, kd: i64, output_limit: i64) -> PidController {
        PidController { kp, ki, kd, output_limit, integral: 0, previous_error: 0 }
    }

    /// This controller with its mutable state cleared, gains and limit kept.
    pub open spec fn after_reset(self) -> PidController {
        PidController {
            kp: self.kp,
            ki: self.ki,
            kd: self.kd,
            output_limit: self.output_limit,
            integral: 0,
            previous_error: 0,
        }
    }

    /// Gains, limit and inputs inside the representable band, a positive
    /// limit, the integral inside the saturation band, and the remembered
    /// error no larger than any representable error difference.
    pub open spec fn wf(self) -> bool {
        &&& 0 < self.output_limit <= MAX_MAGNITUDE
        &&& -MAX_MAGNITUDE <= self.kp <= MAX_MAGNITUDE
        &&& -MAX_MAGNITUDE <= self.ki <= MAX_MAGNITUDE
        &&& -MAX_MAGNITUDE <= self.kd <= MAX_MAGNITUDE
        &&& -self.output_limit <= self.integral <= self.output_limit
        &&& -2 * (MAX_MAGNITUDE as int) <= self.previous_error <= 2 * (MAX_MAGNITUDE as int)
    }

    /// The integral accumulator after one step on `error` over `dt`:
    /// `error · dt` folded in, then the accumulator itself clamped into the
    /// saturation band — the anti-windup policy.
    pub open spec fn next_integral(self, error: int, dt: int) -> int {
        clamp_to(
            self.integral + div_trunc(error * dt, FIXED_ONE as int),
            self.output_limit as int,
        )
    }

    /// The saturated output of one step on `error` over `dt`: the weighted
    /// sum of error, updated integral and derivative term, clamped into
    /// `[-output_limit, output_limit]`.
    pub open spec fn step_output(self, error: int, dt: int) -> int {
        clamp_to(
            div_trunc(
                self.kp * error + self.ki * self.next_integral(error, dt) + self.kd
                    * derivative_term(error, self.previous_error as int, dt),
                FIXED_ONE as int,
            ),
            self.output_limit as int,
        )
    }

    /// Creates a controller with the given gains and saturation limit and a
    /// cleared state. The limit must be positive; gains and limit must lie
    /// in the representable band.
    pub fn new(kp: i64, ki: i64, kd: i64, output_limit: i64) -> (r: PidController)
        requires
            0 < output_limit <= MAX_MAGNITUDE,
            -MAX_MAGNITUDE <= kp <= MAX_MAGNITUDE,
            -MAX_MAGNITUDE <= ki <= MAX_MAGNITUDE,
            -MAX_MAGNITUDE <= kd <= MAX_MAGNITUDE,
        ensures
            r == PidController::fresh(kp, ki, kd, output_limit),
            r.wf(),
    {
        PidController { kp, ki, kd, output_limit, integral: 0, previous_error: 0 }
    }

    /// One step of the control law on the current `setpoint` and `measured`
    /// value over the cycle length `dt` (all in millionths): the error is
    /// `setpoint - measured`; the integral absorbs `error · dt` and is
    /// clamped (anti-windup); the derivative is the error slope, zero when
    /// `dt` is zero; and the returned output is the weighted sum, clamped
    /// into `[-output_limit, output_limit]`.
    pub fn compute(&mut self, setpoint: i64, measured: i64, dt: i64) -> (output: i64)
        requires
            old(self).wf(),
            -MAX_MAGNITUDE <= setpoint <= MAX_MAGNITUDE,
            -MAX_MAGNITUDE <= measured <= MAX_MAGNITUDE,
            0 <= dt <= MAX_MAGNITUDE,
        ensures
            final(self).kp == old(self).kp,
            final(self).ki == old(self).ki,
            final(self).kd == old(self).kd,
            final(self).output_limit == old(self).output_limit,
            final(self).previous_error == setpoint - measured,
            final(self).integral == old(self).next_integral(setpoint - measured, dt as int),
            output == old(self).step_output(setpoint - measured, dt as int),
            -old(self).output_limit <= output <= old(self).output_limit,
            -old(self).output_limit <= final(self).integral <= old(self).output_limit,
            dt == 0 ==> final(self).integral == old(self).integral,
            dt == 0 ==> output == clamp_to(
                div_trunc(
                    old(self).kp * (setpoint - measured) + old(self).ki * final(self).integral,
                    FIXED_ONE as int,
                ),
                old(self).output_limit as int,
            ),
            final(self).wf(),
    {
        let error: i64 = setpoint - measured;
        let limit: i64 = self.output_limit;

        proof {
            lemma_mul_bounds(
                error as int,
                dt as int,
                2 * (MAX_MAGNITUDE as int),
                MAX_MAGNITUDE as int,
            );
        }
        let prod_e_dt: i128 = (error as i128) * (dt as i128);
        let inc: i128 = div_trunc_i128(prod_e_dt, FIXED_ONE as i128);
        proof {
            lemma_div_trunc_bound(prod_e_dt as int, FIXED_ONE as int);
        }
        let acc: i128 = (self.integral as i128) + inc;
        let new_integral: i64 = clamp_i128(acc, limit);
        self.integral = new_integral;

        let mut derivative: i128 = 0;
        if dt > 0 {
            let diff: i64 = error - self.previous_error;
            proof {
                lemma_mul_bounds(
                    diff as int,
                    FIXED_ONE as int,
                    4 * (MAX_MAGNITUDE as int),
                    FIXED_ONE as int,
                );
            }
            let num: i128 = (diff as i128) * (FIXED_ONE as i128);
            derivative = div_trunc_i128(num, dt as i128);
            proof {
                lemma_div_trunc_bound(num as int, dt as int);
            }
        }
        self.previous_error = error;

        proof {
            lemma_mul_bounds(
                self.kp as int,
                error as int,
                MAX_MAGNITUDE as int,
                2 * (MAX_MAGNITUDE as int),
            );
            lemma_mul_bounds(
                self.ki as int,
                new_integral as int,
                MAX_MAGNITUDE as int,
                MAX_MAGNITUDE as int,
            );
            lemma_mul_bounds(
                self.kd as int,
                derivative as int,
                MAX_MAGNITUDE as int,
                4 * (MAX_MAGNITUDE as int) * (FIXED_ONE as int),
            );
        }
        let p_term: i128 = (self.kp as i128) * (error as i128);
        let i_term: i128 = (self.ki as i128) * (new_integral as i128);
        let d_term: i128 = (self.kd as i128) * derivative;
        let total: i128 = p_term + i_term + d_term;
        let raw: i128 = div_trunc_i128(total, FIXED_ONE as i128);
        clamp_i128(raw, limit)
    }

    /// Clears the integral accumulator and the remembered error; the gains
    /// and the saturation limit are untouched.
    pub fn reset(&mut self)
        ensures
            *final(self) == old(self).after_reset(),
            old(self).wf() ==> final(self).wf(),
    {
        self.integral = 0;
        self.previous_error = 0;
    }
}

/// Law: resetting a controller leaves exactly the state of a freshly
/// constructed controller with the same gains and limit. Since `compute`
/// pins its output and its successor state by the current state and its
/// arguments alone, the first `compute` after a `reset` behaves identically
/// to the first `compute` of such a fresh controller.
pub proof fn lemma_reset_is_fresh(c: PidController)
    ensures
        c.after_reset() == PidController::fresh(c.kp, c.ki, c.kd, c.output_limit),
{
}

} // verus!
