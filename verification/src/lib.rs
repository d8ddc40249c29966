//! A verified discrete-time simulation of a vertically actuated point mass
//! under closed-loop PID control.
//!
//! The library couples two state machines once per time tick: a physical
//! vehicle model advanced by exact constant-acceleration kinematics, and a
//! PID controller whose output, mapped to a thrust fraction, drives the
//! vehicle.  Every quantity is exact fixed-point arithmetic, so every step
//! is a pure function of its inputs and each contract pins the result of a
//! step field by field.

use vstd::prelude::*;

pub mod actuation;
pub mod fixed;
pub mod pid;
pub mod sim;

use crate::actuation::{actuation_fraction, policy_wf, ActuationPolicy};
use crate::fixed::{IN_BOUND, MUL_BOUND, SCALE};
use crate::pid::{ctrl_output, ctrl_output_ok, ctrl_step, ctrl_step_ok, Config, Controller};
use crate::sim::{tick_ok, tick_spec, NoiseDistV, Vehicle, VehicleV, DT_BOUND};

verus! {

/// The variable input into one tick: the tick's time and the position the
/// controller is asked to drive toward.
#[derive(Clone, Copy, Debug, PartialEq, Eq, Structural)]
pub struct Input {
    /// Seconds, fixed-point.
    pub time: i64,
    /// Position the controller will drive to, fixed-point.
    pub setpoint: i64,
}

/// Spec-level image of a tick input.
pub ghost struct InputV {
    pub time: int,
    pub setpoint: int,
}

impl View for Input {
    type V = InputV;

    open spec fn view(&self) -> InputV {
        InputV { time: self.time as int, setpoint: self.setpoint as int }
    }
}

/// One frame of the simulation: the tick's input and the two sub-states it
/// produced, plus the actuation policy the run was configured with.  Frames
/// are immutable once produced; a run is the sequence of frames each step
/// derives from its predecessor.
#[derive(Clone, Copy, Debug, PartialEq, Eq, Structural)]
pub struct Sim {
    pub input: Input,
    /// How many steps produced this frame; 0 is the initial frame.
    pub generation: usize,
    pub vehicle: Vehicle,
    pub controller: Controller,
    pub policy: ActuationPolicy,
}

/// Spec-level image of a frame.
pub ghost struct SimV {
    pub input: InputV,
    pub generation: nat,
    pub vehicle: VehicleV,
    pub controller: pid::ControllerV,
    pub policy: ActuationPolicy,
}

impl View for Sim {
    type V = SimV;

    open spec fn view(&self) -> SimV {
        SimV {
            input: self.input@,
            generation: self.generation as nat,
            vehicle: self.vehicle@,
            controller: self.controller@,
            policy: self.policy,
        }
    }
}

/// The sample one step hands the controller: the tick's time and setpoint,
/// and the position measured on the frame's vehicle — the state that was
/// already produced, not the one about to be (control-loop causality).
pub open spec fn pid_sample(s: SimV, inp: InputV) -> pid::InputV {
    pid::InputV { time: inp.time, setpoint: inp.setpoint, measured: s.vehicle.pos }
}

/// The frame one step produces from frame `s` on input `inp` and the two
/// disturbance samples: the controller advances on the previous frame's
/// measurement, its output maps to a thrust fraction, and the vehicle
/// advances by the time elapsed since the previous input.
pub open spec fn sim_step_spec(
    s: SimV,
    inp: InputV,
    thrust_error: int,
    ambient_force: int,
) -> SimV {
    let c1 = ctrl_step(s.controller, pid_sample(s, inp));
    let frac = actuation_fraction(s.policy, ctrl_output(c1));
    let dt = inp.time - s.input.time;
    SimV {
        input: inp,
        generation: s.generation + 1,
        vehicle: tick_spec(s.vehicle, frac, dt, thrust_error, ambient_force),
        controller: c1,
        policy: s.policy,
    }
}

/// Machine-size bounds and configuration well-formedness under which one
/// step computes without overflow.
pub open spec fn sim_step_ok(s: SimV, inp: InputV, thrust_error: int, ambient_force: int) -> bool {
    &&& ctrl_step_ok(s.controller, pid_sample(s, inp))
    &&& ctrl_output_ok(ctrl_step(s.controller, pid_sample(s, inp)))
    &&& policy_wf(s.policy)
    &&& s.generation < usize::MAX
    &&& tick_ok(s.vehicle, inp.time - s.input.time, thrust_error, ambient_force)
}

impl Sim {
    /// Advance the whole simulation by one tick.  The result is pinned to
    /// `sim_step_spec` exactly: the controller reacts to the previous
    /// frame's measured position, the actuation policy maps its output to a
    /// thrust fraction, the vehicle advances by the elapsed time under that
    /// fraction and the two disturbance samples, and the frame's generation
    /// counter grows by exactly one.
    pub fn step(&self, input: &Input, thrust_error: i64, ambient_force: i64) -> (r: Sim)
        requires
            sim_step_ok(self@, input@, thrust_error as int, ambient_force as int),
        ensures
            r@ == sim_step_spec(self@, input@, thrust_error as int, ambient_force as int),
            r.generation == self.generation + 1,
            r.controller.generation == self.controller.generation + 1,
    {
        let measured = self.vehicle.pos();
        let controller = self.controller.step(
            &pid::Input { time: input.time, setpoint: input.setpoint, measured },
        );
        let frac = self.policy.apply(controller.output());
        let dt = input.time - self.input.time;
        let mut vehicle = self.vehicle;
        vehicle.tick(frac, dt, thrust_error, ambient_force);
        Sim {
            input: *input,
            generation: self.generation + 1,
            vehicle,
            controller,
            policy: self.policy,
        }
    }

    /// Advance by one tick after checking every bound `step` relies on:
    /// the checked entry point for a caller that cannot establish the
    /// bounds ahead of time.  Returns the next frame exactly when the
    /// bounds hold, and nothing otherwise.
    pub fn try_step(&self, input: &Input, thrust_error: i64, ambient_force: i64)
        -> (r: Option<Sim>)
        ensures
            r is Some <==> sim_step_ok(
                self@, input@, thrust_error as int, ambient_force as int,
            ),
            r is Some ==> r->0@ == sim_step_spec(
                self@, input@, thrust_error as int, ambient_force as int,
            ),
    {
        let sample = pid::Input {
            time: input.time,
            setpoint: input.setpoint,
            measured: self.vehicle.pos(),
        };
        let c = &self.controller;
        if !(-IN_BOUND <= c.input.time && c.input.time <= IN_BOUND
            && -IN_BOUND <= sample.time && sample.time <= IN_BOUND
            && -IN_BOUND <= sample.setpoint && sample.setpoint <= IN_BOUND
            && -IN_BOUND <= sample.measured && sample.measured <= IN_BOUND
            && -2 * IN_BOUND <= c.error && c.error <= 2 * IN_BOUND
            && -MUL_BOUND <= c.integral && c.integral <= MUL_BOUND
            && c.generation < usize::MAX)
        {
            return None;
        }
        let c1 = self.controller.step(&sample);
        if !(-IN_BOUND <= c1.config.p && c1.config.p <= IN_BOUND
            && -IN_BOUND <= c1.config.i && c1.config.i <= IN_BOUND
            && -IN_BOUND <= c1.config.d && c1.config.d <= IN_BOUND
            && -MUL_BOUND <= c1.error && c1.error <= MUL_BOUND
            && -MUL_BOUND <= c1.integral && c1.integral <= MUL_BOUND
            && -MUL_BOUND <= c1.derivative && c1.derivative <= MUL_BOUND)
        {
            return None;
        }
        let policy_ok = match self.policy {
            ActuationPolicy::IdentityClamp => true,
            ActuationPolicy::HoverLinear { hover } => 0 <= hover && hover <= SCALE,
        };
        if !policy_ok {
            return None;
        }
        if self.generation >= usize::MAX {
            return None;
        }
        let dt_wide = (input.time as i128) - (self.input.time as i128);
        let v = &self.vehicle;
        if !(-IN_BOUND <= v.pos && v.pos <= IN_BOUND
            && -IN_BOUND <= v.vel && v.vel <= IN_BOUND
            && -IN_BOUND <= v.thrust && v.thrust <= IN_BOUND
            && -IN_BOUND <= thrust_error && thrust_error <= IN_BOUND
            && -IN_BOUND <= ambient_force && ambient_force <= IN_BOUND
            && -(DT_BOUND as i128) <= dt_wide && dt_wide <= DT_BOUND as i128)
        {
            return None;
        }
        Some(self.step(input, thrust_error, ambient_force))
    }

    /// The frame's time, as handed in by the driver.
    pub fn time(&self) -> (r: i64)
        ensures
            r == self@.input.time,
    {
        self.input.time
    }

    /// The frame's setpoint, as handed in by the driver.
    pub fn setpoint(&self) -> (r: i64)
        ensures
            r == self@.input.setpoint,
    {
        self.input.setpoint
    }

    /// The frame's exact vehicle position.
    pub fn position(&self) -> (r: i64)
        ensures
            r == self@.vehicle.pos,
    {
        self.vehicle.pos()
    }

    /// The thrust fraction this frame's controller state commands under the
    /// frame's policy.  A pure projection: recomputing it does not step.
    pub fn actuation_fraction(&self) -> (r: i64)
        requires
            policy_wf(self@.policy),
            ctrl_output_ok(self@.controller),
        ensures
            r == actuation_fraction(self@.policy, ctrl_output(self@.controller)),
    {
        self.policy.apply(self.controller.output())
    }
}

impl Default for Sim {
    /// The initial frame: time zero with setpoint 50, a grounded zeroed
    /// vehicle with the stock noise configuration, a controller that has
    /// seen no sample, and the plain clamp as actuation policy.
    fn default() -> (s: Sim)
        ensures
            s@.input == (InputV { time: 0, setpoint: 500_000 }),
            s@.generation == 0,
            s@.vehicle == (VehicleV {
                pos: 0,
                vel: 0,
                acc: 0,
                thrust: 400_000,
                thrust_err: NoiseDistV { mean: 0, std_dev: 20_000 },
                sensor_err: NoiseDistV { mean: 1_000, std_dev: 5_000 },
                rand_force: NoiseDistV { mean: 0, std_dev: 57_500 },
            }),
            s.controller == (Controller {
                config: Config { p: 750, i: 15, d: 1000 },
                generation: 0,
                input: pid::Input { time: 0, setpoint: 0, measured: 0 },
                error: 0,
                integral: 0,
                derivative: 0,
            }),
            s.policy == ActuationPolicy::IdentityClamp,
    {
        Sim {
            input: Input { time: 0, setpoint: 500_000 },
            generation: 0,
            vehicle: Vehicle::default(),
            controller: Controller::default(),
            policy: ActuationPolicy::IdentityClamp,
        }
    }
}

/// Generation counters on the frame and on the controller both grow by
/// exactly one per step.
pub proof fn lemma_sim_step_generation(s: SimV, inp: InputV, thrust_error: int, ambient_force: int)
    ensures
        sim_step_spec(s, inp, thrust_error, ambient_force).generation == s.generation + 1,
        sim_step_spec(s, inp, thrust_error, ambient_force).controller.generation
            == s.controller.generation + 1,
{
}

/// Every frame a step produces keeps the vehicle above ground: its position
/// is never negative, and a vehicle resting on the ground never carries
/// downward velocity.
pub proof fn lemma_sim_step_ground(s: SimV, inp: InputV, thrust_error: int, ambient_force: int)
    ensures
        sim_step_spec(s, inp, thrust_error, ambient_force).vehicle.pos >= 0,
        sim_step_spec(s, inp, thrust_error, ambient_force).vehicle.pos == 0
            ==> sim_step_spec(s, inp, thrust_error, ambient_force).vehicle.vel >= 0,
{
}

/// Control-loop causality: the measurement a step hands the controller is
/// the position of the frame's vehicle — the state already produced — never
/// the position the step is about to produce.
pub proof fn lemma_sim_step_causality(s: SimV, inp: InputV, thrust_error: int, ambient_force: int)
    ensures
        sim_step_spec(s, inp, thrust_error, ambient_force).controller.input.measured
            == s.vehicle.pos,
{
}

} // verus!
