//! A PID controller written as a pure state machine: each step maps the
//! previous controller state and a fresh input to the next state, and the
//! scalar output is a side-effect-free query of the current state.

use vstd::prelude::*;
use crate::fixed::{fdiv, fmul, fp_div, fp_mul, IN_BOUND, MUL_BOUND};

verus! {

/// Static proportional, integral and derivative gains, fixed-point.
#[derive(Clone, Copy, Debug, PartialEq, Eq, Structural)]
pub struct Config {
    pub p: i64,
    pub i: i64,
    pub d: i64,
}

/// One sample handed to the controller: the tick's time, the position the
/// controller drives toward, and the position measured on the vehicle.
#[derive(Clone, Copy, Debug, PartialEq, Eq, Structural)]
pub struct Input {
    pub time: i64,
    pub setpoint: i64,
    pub measured: i64,
}

/// The controller's full state: enough to replay a run sample by sample.
#[derive(Clone, Copy, Debug, PartialEq, Eq, Structural)]
pub struct Controller {
    pub config: Config,
    /// How many steps have been applied; 0 means no sample has been seen.
    pub generation: usize,
    /// The sample consumed by the most recent step.
    pub input: Input,
    /// Setpoint minus measured position, from the most recent step.
    pub error: i64,
    /// Running accumulation of `error * dt`.
    pub integral: i64,
    /// Backward-difference slope of the error.
    pub derivative: i64,
}

/// Spec-level image of an input sample.
pub ghost struct InputV {
    pub time: int,
    pub setpoint: int,
    pub measured: int,
}

/// Spec-level image of a controller state.
pub ghost struct ControllerV {
    pub p: int,
    pub i: int,
    pub d: int,
    pub generation: nat,
    pub input: InputV,
    pub error: int,
    pub integral: int,
    pub derivative: int,
}

impl View for Input {
    type V = InputV;

    open spec fn view(&self) -> InputV {
        InputV {
            time: self.time as int,
            setpoint: self.setpoint as int,
            measured: self.measured as int,
        }
    }
}

impl View for Controller {
    type V = ControllerV;

    open spec fn view(&self) -> ControllerV {
        ControllerV {
            p: self.config.p as int,
            i: self.config.i as int,
            d: self.config.d as int,
            generation: self.generation as nat,
            input: self.input@,
            error: self.error as int,
            integral: self.integral as int,
            derivative: self.derivative as int,
        }
    }
}

/// The derivative the next step records: zero while no prior sample exists
/// (the slope is undefined there, not computable), the previous value held
/// when time has not advanced (a division by zero otherwise), and the
/// backward-difference slope of the error everywhere else.
pub open spec fn next_derivative(c: ControllerV, inp: InputV) -> int {
    let dt = inp.time - c.input.time;
    let error = inp.setpoint - inp.measured;
    if c.generation == 0 {
        0
    } else if dt <= 0 {
        c.derivative
    } else {
        fdiv(error - c.error, dt)
    }
}

/// The controller state one step produces from `c` on the sample `inp`.
pub open spec fn ctrl_step(c: ControllerV, inp: InputV) -> ControllerV {
    let dt = inp.time - c.input.time;
    let error = inp.setpoint - inp.measured;
    ControllerV {
        generation: c.generation + 1,
        input: inp,
        error,
        integral: c.integral + fmul(error, dt),
        derivative: next_derivative(c, inp),
        ..c
    }
}

/// The scalar the controller commands in state `c`: the gain-weighted sum
/// of error, integral and derivative.
pub open spec fn ctrl_output(c: ControllerV) -> int {
    fmul(c.p, c.error) + fmul(c.i, c.integral) + fmul(c.d, c.derivative)
}

/// Machine-size bounds under which one step computes without overflow.
pub open spec fn ctrl_step_ok(c: ControllerV, inp: InputV) -> bool {
    &&& -IN_BOUND <= c.input.time <= IN_BOUND
    &&& -IN_BOUND <= inp.time <= IN_BOUND
    &&& -IN_BOUND <= inp.setpoint <= IN_BOUND
    &&& -IN_BOUND <= inp.measured <= IN_BOUND
    &&& -2 * IN_BOUND <= c.error <= 2 * IN_BOUND
    &&& -MUL_BOUND <= c.integral <= MUL_BOUND
    &&& c.generation < usize::MAX
}

/// Machine-size bounds under which the output computes without overflow.
pub open spec fn ctrl_output_ok(c: ControllerV) -> bool {
    &&& -IN_BOUND <= c.p <= IN_BOUND
    &&& -IN_BOUND <= c.i <= IN_BOUND
    &&& -IN_BOUND <= c.d <= IN_BOUND
    &&& -MUL_BOUND <= c.error <= MUL_BOUND
    &&& -MUL_BOUND <= c.integral <= MUL_BOUND
    &&& -MUL_BOUND <= c.derivative <= MUL_BOUND
}

impl Controller {
    /// Advance the controller by one sample.  Pure: the result is pinned,
    /// field by field, to `ctrl_step` of the old state and the sample, so
    /// two runs over equal histories agree exactly.  The generation counter
    /// grows by exactly one.
    pub fn step(&self, input: &Input) -> (r: Controller)
        requires
            ctrl_step_ok(self@, input@),
        ensures
            r@ == ctrl_step(self@, input@),
            r.generation == self.generation + 1,
    {
        let dt = input.time - self.input.time;
        let error = input.setpoint - input.measured;
        proof {
            crate::fixed::lemma_fmul_bound(
                error as int,
                dt as int,
                2 * IN_BOUND as int,
                2 * IN_BOUND as int,
            );
        }
        let integral = self.integral + fp_mul(error, dt);
        let derivative = if self.generation == 0 {
            0
        } else if dt <= 0 {
            self.derivative
        } else {
            fp_div(error - self.error, dt)
        };
        Controller {
            generation: self.generation + 1,
            input: *input,
            error,
            integral,
            derivative,
            ..*self
        }
    }

    /// The commanded scalar: `p*error + i*integral + d*derivative`.
    /// A query with no side effect; stepping is not required to read it.
    pub fn output(&self) -> (r: i64)
        requires
            ctrl_output_ok(self@),
        ensures
            r == ctrl_output(self@),
    {
        proof {
            crate::fixed::lemma_fmul_bound(
                self.config.p as int, self.error as int,
                IN_BOUND as int, MUL_BOUND as int,
            );
            crate::fixed::lemma_fmul_bound(
                self.config.i as int, self.integral as int,
                IN_BOUND as int, MUL_BOUND as int,
            );
            crate::fixed::lemma_fmul_bound(
                self.config.d as int, self.derivative as int,
                IN_BOUND as int, MUL_BOUND as int,
            );
        }
        fp_mul(self.config.p, self.error)
            + fp_mul(self.config.i, self.integral)
            + fp_mul(self.config.d, self.derivative)
    }
}

impl Default for Config {
    /// The gain set a fresh simulation starts from.
    fn default() -> (c: Config)
        ensures
            c.p == 750,
            c.i == 15,
            c.d == 1000,
    {
        Config { p: 750, i: 15, d: 1000 }
    }
}

impl Default for Controller {
    /// A controller that has seen no sample: generation 0, zeroed history.
    fn default() -> (c: Controller)
        ensures
            c.config.p == 750,
            c.config.i == 15,
            c.config.d == 1000,
            c.generation == 0,
            c.input == (Input { time: 0, setpoint: 0, measured: 0 }),
            c.error == 0,
            c.integral == 0,
            c.derivative == 0,
    {
        Controller {
            config: Config::default(),
            generation: 0,
            input: Input { time: 0, setpoint: 0, measured: 0 },
            error: 0,
            integral: 0,
            derivative: 0,
        }
    }
}

/// With no prior sample the recorded derivative is zero whatever the error:
/// at generation 0 the slope is undefined and is defined away, not computed.
pub proof fn lemma_first_step_derivative_zero(c: ControllerV, inp: InputV)
    requires
        c.generation == 0,
    ensures
        ctrl_step(c, inp).derivative == 0,
{
}

/// The controller is deterministic: a step is a pure function of the prior
/// state and the sample, so equal histories give bit-identical error,
/// integral, derivative and output.
pub proof fn lemma_step_deterministic(c1: ControllerV, c2: ControllerV, i1: InputV, i2: InputV)
    requires
        c1 == c2,
        i1 == i2,
    ensures
        ctrl_step(c1, i1) == ctrl_step(c2, i2),
        ctrl_output(ctrl_step(c1, i1)) == ctrl_output(ctrl_step(c2, i2)),
{
}

/// Each step advances the generation counter by exactly one.
pub proof fn lemma_step_generation(c: ControllerV, inp: InputV)
    ensures
        ctrl_step(c, inp).generation == c.generation + 1,
{
}

} // verus!
