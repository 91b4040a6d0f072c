//! The feedback controller: a proportional-integral-derivative law with
//! anti-windup and a filtered derivative, in fixed-point arithmetic.

use vstd::prelude::*;
use crate::fixed::{add_sat, clamp, clamp_int, div_diff_sat, div_fixed, mul_fixed, mul_sat, sat, sub_sat, SCALE};

verus! {

/// Configuration of the controller, in millionths.
#[derive(Debug, Clone, Copy, PartialEq, Eq, Structural)]
pub struct FfiPidConfig {
    /// Proportional gain.
    pub kp: i64,
    /// Integral gain.
    pub ki: i64,
    /// Derivative gain.
    pub kd: i64,
    /// Bound of the running integral (anti-windup).
    pub integral_max: i64,
    /// Least output.
    pub output_min: i64,
    /// Greatest output.
    pub output_max: i64,
    /// Weight of the newest raw derivative in the filter, from 0 to 1.
    pub derivative_alpha: i64,
}

/// The tuned configuration of the tempo controller.
pub open spec fn default_config() -> FfiPidConfig {
    FfiPidConfig {
        kp: 3_000,
        ki: 200,
        kd: 8_000,
        integral_max: 5_000_000,
        output_min: -600_000i64,
        output_max: 400_000,
        derivative_alpha: 150_000,
    }
}

impl FfiPidConfig {
    /// Whether the bounds are ordered: the integral bound is not negative
    /// and the least output is not above the greatest.
    pub open spec fn valid(self) -> bool {
        self.integral_max >= 0 && self.output_min <= self.output_max
    }

    /// Whether the bounds are ordered.
    pub fn is_valid(&self) -> (r: bool)
        ensures
            r == self.valid(),
    {
        self.integral_max >= 0 && self.output_min <= self.output_max
    }
}

impl Default for FfiPidConfig {
    fn default() -> (r: Self)
        ensures
            r == default_config(),
    {
        FfiPidConfig {
            kp: 3_000,
            ki: 200,
            kd: 8_000,
            integral_max: 5_000_000,
            output_min: -600_000,
            output_max: 400_000,
            derivative_alpha: 150_000,
        }
    }
}

/// The terms of the last computation.
#[derive(Debug, Clone, Copy, PartialEq, Eq, Structural)]
pub struct FfiPidDiagnostics {
    pub p_term: i64,
    pub i_term: i64,
    pub d_term: i64,
    pub integral: i64,
    pub total: i64,
}

/// Mathematical value of a [`PidController`].
pub struct PidState {
    pub config: FfiPidConfig,
    pub integral: i64,
    pub last_error: i64,
    pub last_derivative: i64,
    pub last_p: i64,
    pub last_i: i64,
    pub last_d: i64,
}

/// The controller with configuration `config` and no history.
pub open spec fn fresh(config: FfiPidConfig) -> PidState {
    PidState {
        config,
        integral: 0,
        last_error: 0,
        last_derivative: 0,
        last_p: 0,
        last_i: 0,
        last_d: 0,
    }
}

/// The proportional term: gain times error.
pub open spec fn p_term(c: FfiPidConfig, error: i64) -> int {
    sat(mul_fixed(c.kp as int, error as int))
}

/// The running integral after `error` acted for `dt`: the sum, held within
/// the integral bound.
pub open spec fn next_integral(s: PidState, error: i64, dt: i64) -> int {
    clamp_int(
        sat(s.integral + sat(mul_fixed(error as int, dt as int))),
        -s.config.integral_max,
        s.config.integral_max as int,
    )
}

/// The raw derivative: the change of the error over `dt`.
pub open spec fn raw_derivative(s: PidState, error: i64, dt: i64) -> int
    recommends
        dt > 0,
{
    sat(div_fixed(error - s.last_error, dt as int))
}

/// The filtered derivative: the raw one weighted by alpha, the last filtered
/// one by one minus alpha.
pub open spec fn next_derivative(s: PidState, error: i64, dt: i64) -> int
    recommends
        dt > 0,
{
    let alpha = s.config.derivative_alpha as int;
    sat(
        sat(mul_fixed(alpha, raw_derivative(s, error, dt))) + sat(
            mul_fixed(sat(SCALE - alpha), s.last_derivative as int),
        ),
    )
}

/// The controller after computing on `error` over the step `dt > 0`.
pub open spec fn pid_step(s: PidState, error: i64, dt: i64) -> PidState
    recommends
        dt > 0,
{
    let integral = next_integral(s, error, dt);
    let derivative = next_derivative(s, error, dt);
    PidState {
        config: s.config,
        integral: integral as i64,
        last_error: error,
        last_derivative: derivative as i64,
        last_p: p_term(s.config, error) as i64,
        last_i: sat(mul_fixed(s.config.ki as int, integral)) as i64,
        last_d: sat(mul_fixed(s.config.kd as int, derivative)) as i64,
    }
}

/// The output of a computation that left the controller in state `s`: the
/// sum of the three terms, held within the output bounds.
pub open spec fn pid_output(s: PidState) -> int {
    clamp_int(
        s.last_p + s.last_i + s.last_d,
        s.config.output_min as int,
        s.config.output_max as int,
    )
}

/// The controller.
pub struct PidController {
    config: FfiPidConfig,
    integral: i64,
    last_error: i64,
    last_derivative: i64,
    last_p: i64,
    last_i: i64,
    last_d: i64,
}

impl View for PidController {
    type V = PidState;

    closed spec fn view(&self) -> PidState {
        PidState {
            config: self.config,
            integral: self.integral,
            last_error: self.last_error,
            last_derivative: self.last_derivative,
            last_p: self.last_p,
            last_i: self.last_i,
            last_d: self.last_d,
        }
    }
}

impl PidController {
    #[verifier::type_invariant]
    spec fn inv(self) -> bool {
        self.config.valid()
    }

    /// A controller with the tuned default configuration.
    pub fn new() -> (r: Self)
        ensures
            r@ == fresh(default_config()),
    {
        Self::with_config(FfiPidConfig::default())
    }

    /// A controller with the configuration `config` and no history.
    pub fn with_config(config: FfiPidConfig) -> (r: Self)
        requires
            config.valid(),
        ensures
            r@ == fresh(config),
    {
        PidController {
            config,
            integral: 0,
            last_error: 0,
            last_derivative: 0,
            last_p: 0,
            last_i: 0,
            last_d: 0,
        }
    }

    /// Computes the control output for `error` over the time step `dt`.
    ///
    /// A step that is not positive is rejected: the output is zero and the
    /// controller stays as it was. Otherwise the controller takes the step
    /// `pid_step`, and the output is the sum of its three terms within the
    /// output bounds.
    pub fn compute(&mut self, error: i64, dt: i64) -> (r: i64)
        ensures
            dt <= 0 ==> r == 0 && final(self)@ == old(self)@,
            dt > 0 ==> final(self)@ == pid_step(old(self)@, error, dt) && r == pid_output(
                final(self)@,
            ),
            final(self)@.config.valid(),
            dt > 0 ==> final(self)@.config.output_min <= r <= final(self)@.config.output_max,
    {
        proof {
            use_type_invariant(&*self);
        }
        if dt <= 0 {
            return 0;
        }
        self.last_p = mul_sat(self.config.kp, error);

        let sum = add_sat(self.integral, mul_sat(error, dt));
        self.integral = clamp(sum, -self.config.integral_max, self.config.integral_max);
        self.last_i = mul_sat(self.config.ki, self.integral);

        let raw = div_diff_sat(error, self.last_error, dt);
        let alpha = self.config.derivative_alpha;
        self.last_derivative = add_sat(
            mul_sat(alpha, raw),
            mul_sat(sub_sat(1_000_000, alpha), self.last_derivative),
        );
        self.last_d = mul_sat(self.config.kd, self.last_derivative);

        let output: i128 = self.last_p as i128 + self.last_i as i128 + self.last_d as i128;
        let clamped: i128 = if output < self.config.output_min as i128 {
            self.config.output_min as i128
        } else if output > self.config.output_max as i128 {
            self.config.output_max as i128
        } else {
            output
        };
        self.last_error = error;
        clamped as i64
    }

    /// Forgets the history: the integral, the last error, the filtered
    /// derivative and the last terms are zero again. The configuration stays.
    pub fn reset(&mut self)
        ensures
            final(self)@ == fresh(old(self)@.config),
    {
        proof {
            use_type_invariant(&*self);
        }
        self.integral = 0;
        self.last_error = 0;
        self.last_derivative = 0;
        self.last_p = 0;
        self.last_i = 0;
        self.last_d = 0;
    }

    /// The terms of the last computation, the running integral, and the
    /// saturated sum of the terms.
    pub fn get_diagnostics(&self) -> (r: FfiPidDiagnostics)
        ensures
            r == (FfiPidDiagnostics {
                p_term: self@.last_p,
                i_term: self@.last_i,
                d_term: self@.last_d,
                integral: self@.integral,
                total: sat(self@.last_p + self@.last_i + self@.last_d) as i64,
            }),
    {
        FfiPidDiagnostics {
            p_term: self.last_p,
            i_term: self.last_i,
            d_term: self.last_d,
            integral: self.integral,
            total: crate::fixed::saturate(
                self.last_p as i128 + self.last_i as i128 + self.last_d as i128,
            ),
        }
    }

    /// The configuration in use.
    pub fn config(&self) -> (r: FfiPidConfig)
        ensures
            r == self@.config,
            r.valid(),
    {
        proof {
            use_type_invariant(self);
        }
        self.config
    }

    /// Replaces those of the three gains that are given. The history and the
    /// bounds stay.
    pub fn set_gains(&mut self, kp: Option<i64>, ki: Option<i64>, kd: Option<i64>)
        ensures
            final(self)@ == (PidState {
                config: FfiPidConfig {
                    kp: match kp {
                        Some(p) => p,
                        None => old(self)@.config.kp,
                    },
                    ki: match ki {
                        Some(i) => i,
                        None => old(self)@.config.ki,
                    },
                    kd: match kd {
                        Some(d) => d,
                        None => old(self)@.config.kd,
                    },
                    ..old(self)@.config
                },
                ..old(self)@
            }),
    {
        proof {
            use_type_invariant(&*self);
        }
        if let Some(p) = kp {
            self.config.kp = p;
        }
        if let Some(i) = ki {
            self.config.ki = i;
        }
        if let Some(d) = kd {
            self.config.kd = d;
        }
    }
}

/// The tempo controller with its tuned gains: an output range of
/// `[-0.6, 0.4]` around a nominal tempo of one.
pub fn create_tempo_controller() -> (r: PidController)
    ensures
        r@ == fresh(default_config()),
{
    PidController::with_config(
        FfiPidConfig {
            kp: 3_000,
            ki: 200,
            kd: 8_000,
            integral_max: 5_000_000,
            output_min: -600_000,
            output_max: 400_000,
            derivative_alpha: 150_000,
        },
    )
}

/// After a reset, a computation on zero error yields zero, whatever the
/// positive step, provided zero lies within the output bounds.
pub proof fn lemma_reset_then_zero_error(config: FfiPidConfig, dt: i64)
    requires
        config.valid(),
        config.output_min <= 0 <= config.output_max,
        dt > 0,
    ensures
        pid_output(pid_step(fresh(config), 0, dt)) == 0,
        pid_step(fresh(config), 0, dt) == fresh(config),
{
    let s = fresh(config);
    assert(mul_fixed(config.kp as int, 0) == 0) by (nonlinear_arith);
    assert(mul_fixed(0, dt as int) == 0) by (nonlinear_arith);
    assert(next_integral(s, 0, dt) == 0);
    assert(mul_fixed(config.ki as int, 0) == 0) by (nonlinear_arith);
    assert(div_fixed(0, dt as int) == 0) by (nonlinear_arith)
        requires
            dt > 0,
    ;
    assert(raw_derivative(s, 0, dt) == 0);
    assert(mul_fixed(config.derivative_alpha as int, 0) == 0) by (nonlinear_arith);
    assert(mul_fixed(sat(SCALE - config.derivative_alpha), 0) == 0) by (nonlinear_arith);
    assert(next_derivative(s, 0, dt) == 0);
    assert(mul_fixed(config.kd as int, 0) == 0) by (nonlinear_arith);
}

} // verus!
