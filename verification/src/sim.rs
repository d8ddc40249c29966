//! The physical vehicle: a vertically actuated point mass advanced by exact
//! constant-acceleration kinematics over each tick, held above a non-bouncing
//! floor.
//!
//! The vehicle itself draws no randomness: each tick takes the two
//! disturbance samples (actuation error and ambient force) as explicit
//! arguments, and the noisy measurement accessors take the sensor-error
//! sample the same way, so a run is replayable from its inputs.  The
//! distributions those samples are meant to come from are carried as
//! validated configuration.

use vstd::prelude::*;
use crate::fixed::{
    clamp, clamped, div_trunc, fmul, fp_mul, lemma_fmul_bound, quot,
    DIV_BOUND, IN_BOUND, MUL_BOUND, SCALE,
};

verus! {

/// Standard gravity, fixed-point (9.81 units of acceleration).
pub const GRAVITY: i64 = 98_100;

/// Largest tick length admitted (100 seconds, fixed-point): keeps the
/// squared-time term of the kinematics inside the multiplication domain.
pub const DT_BOUND: i64 = 1_000_000;

/// Parameters of one noise source: a mean and a non-negative spread, both
/// fixed-point.  Construction rejects a negative spread, so an invalid
/// source fails fast, before any tick runs.
#[derive(Clone, Copy, Debug, PartialEq, Eq, Structural)]
pub struct NoiseDist {
    mean: i64,
    std_dev: i64,
}

/// Spec-level image of a noise source.
pub ghost struct NoiseDistV {
    pub mean: int,
    pub std_dev: int,
}

impl View for NoiseDist {
    type V = NoiseDistV;

    closed spec fn view(&self) -> NoiseDistV {
        NoiseDistV { mean: self.mean as int, std_dev: self.std_dev as int }
    }
}

impl NoiseDist {
    #[verifier::type_invariant]
    spec fn wf(self) -> bool {
        self.std_dev >= 0
    }

    /// Validated construction: a negative spread is a configuration error
    /// and is rejected here, never carried into a run.
    pub fn new(mean: i64, std_dev: i64) -> (r: Option<NoiseDist>)
        ensures
            std_dev >= 0 ==> r is Some
                && r->0@ == (NoiseDistV { mean: mean as int, std_dev: std_dev as int }),
            std_dev < 0 ==> r is None,
    {
        if std_dev >= 0 {
            Some(NoiseDist { mean, std_dev })
        } else {
            None
        }
    }

    pub fn mean(&self) -> (r: i64)
        ensures
            r == self@.mean,
    {
        self.mean
    }

    pub fn std_dev(&self) -> (r: i64)
        ensures
            r == self@.std_dev,
            r >= 0,
    {
        proof {
            use_type_invariant(self);
        }
        self.std_dev
    }
}

/// The vehicle: kinematic state, thrust capacity, and the three configured
/// noise sources (actuation error, sensor error, ambient force).
#[derive(Clone, Copy, Debug, PartialEq, Eq, Structural)]
pub struct Vehicle {
    /// Height above the ground, fixed-point; never negative after a tick.
    pub pos: i64,
    /// Vertical velocity, fixed-point; never negative while grounded.
    pub vel: i64,
    /// Net vertical acceleration applied over the last tick.
    pub acc: i64,
    /// Acceleration delivered at full throttle, before gravity and noise.
    pub thrust: i64,
    pub thrust_err: NoiseDist,
    pub sensor_err: NoiseDist,
    pub rand_force: NoiseDist,
}

/// Spec-level image of the vehicle.
pub ghost struct VehicleV {
    pub pos: int,
    pub vel: int,
    pub acc: int,
    pub thrust: int,
    pub thrust_err: NoiseDistV,
    pub sensor_err: NoiseDistV,
    pub rand_force: NoiseDistV,
}

impl View for Vehicle {
    type V = VehicleV;

    open spec fn view(&self) -> VehicleV {
        VehicleV {
            pos: self.pos as int,
            vel: self.vel as int,
            acc: self.acc as int,
            thrust: self.thrust as int,
            thrust_err: self.thrust_err@,
            sensor_err: self.sensor_err@,
            rand_force: self.rand_force@,
        }
    }
}

/// Net vertical acceleration for one tick: thrust scaled by the commanded
/// fraction (defensively clamped to `[0, 1]`), plus the two disturbance
/// samples, minus gravity.
pub open spec fn net_accel(thrust: int, frac: int, thrust_error: int, ambient_force: int) -> int {
    fmul(thrust, clamped(frac, 0, SCALE as int)) + ambient_force + thrust_error - GRAVITY
}

/// Position after `dt` of constant acceleration: `pos + vel*dt + acc*dt^2/2`.
/// Exact for piecewise-constant acceleration, not an approximation.
pub open spec fn kin_pos(pos: int, vel: int, acc: int, dt: int) -> int {
    pos + fmul(vel, dt) + quot(fmul(acc, fmul(dt, dt)), 2)
}

/// Velocity after `dt` of constant acceleration: `vel + acc*dt`.
pub open spec fn kin_vel(vel: int, acc: int, dt: int) -> int {
    vel + fmul(acc, dt)
}

/// The vehicle one tick produces: kinematic propagation, then the floor.
/// The floor is not a bounce: the position is held at zero, and exactly
/// while the vehicle rests at zero is downward velocity zeroed, so lift-off
/// velocity is preserved.
pub open spec fn tick_spec(
    v: VehicleV,
    frac: int,
    dt: int,
    thrust_error: int,
    ambient_force: int,
) -> VehicleV {
    let a = net_accel(v.thrust, frac, thrust_error, ambient_force);
    let pos_raw = kin_pos(v.pos, v.vel, a, dt);
    let vel_raw = kin_vel(v.vel, a, dt);
    let pos1 = if pos_raw < 0 { 0 } else { pos_raw };
    let vel1 = if pos1 == 0 && vel_raw < 0 { 0 } else { vel_raw };
    VehicleV { pos: pos1, vel: vel1, acc: a, ..v }
}

/// Machine-size bounds under which one tick computes without overflow.
/// The commanded fraction needs no bound: the tick clamps it itself.
pub open spec fn tick_ok(v: VehicleV, dt: int, thrust_error: int, ambient_force: int) -> bool {
    &&& -IN_BOUND <= v.pos <= IN_BOUND
    &&& -IN_BOUND <= v.vel <= IN_BOUND
    &&& -IN_BOUND <= v.thrust <= IN_BOUND
    &&& -IN_BOUND <= thrust_error <= IN_BOUND
    &&& -IN_BOUND <= ambient_force <= IN_BOUND
    &&& -DT_BOUND <= dt <= DT_BOUND
}

impl Vehicle {
    /// Advance the physical state by one tick of length `dt` under the
    /// commanded thrust fraction and the two disturbance samples.  The new
    /// state is pinned exactly to `tick_spec`; the floor guarantees come
    /// with it: the position never ends negative, and a grounded vehicle
    /// never ends with downward velocity.
    pub fn tick(&mut self, thrust_percent: i64, dt: i64, thrust_error: i64, ambient_force: i64)
        requires
            tick_ok(old(self)@, dt as int, thrust_error as int, ambient_force as int),
        ensures
            final(self)@ == tick_spec(
                old(self)@,
                thrust_percent as int,
                dt as int,
                thrust_error as int,
                ambient_force as int,
            ),
            final(self)@.pos >= 0,
            final(self)@.pos == 0 ==> final(self)@.vel >= 0,
    {
        let frac = clamp(thrust_percent, 0, SCALE);
        proof {
            lemma_fmul_bound(self.thrust as int, frac as int, IN_BOUND as int, SCALE as int);
        }
        let a = fp_mul(self.thrust, frac) + ambient_force + thrust_error - GRAVITY;
        proof {
            lemma_fmul_bound(dt as int, dt as int, DT_BOUND as int, DT_BOUND as int);
        }
        let dt2 = fp_mul(dt, dt);
        proof {
            lemma_fmul_bound(a as int, dt2 as int, MUL_BOUND as int, 100_000_000);
            lemma_fmul_bound(self.vel as int, dt as int, IN_BOUND as int, DT_BOUND as int);
            lemma_fmul_bound(a as int, dt as int, MUL_BOUND as int, DT_BOUND as int);
        }
        let half_adt2 = div_trunc(fp_mul(a, dt2), 2);
        let pos_raw = self.pos + fp_mul(self.vel, dt) + half_adt2;
        let vel_raw = self.vel + fp_mul(a, dt);
        let pos1 = if pos_raw < 0 { 0 } else { pos_raw };
        let vel1 = if pos1 == 0 && vel_raw < 0 { 0 } else { vel_raw };
        self.pos = pos1;
        self.vel = vel1;
        self.acc = a;
    }

    /// The measured height.  Exact by construction: no sensor error enters,
    /// so repeated reads of one state return identical values.
    pub fn pos(&self) -> (r: i64)
        ensures
            r == self@.pos,
    {
        self.pos
    }

    /// The measured velocity: the true velocity plus the sensor-error sample
    /// drawn for this read, so two reads of one state may differ.
    pub fn velocity(&self, sensor_error: i64) -> (r: i64)
        requires
            -DIV_BOUND <= self@.vel <= DIV_BOUND,
            -IN_BOUND <= sensor_error <= IN_BOUND,
        ensures
            r == self@.vel + sensor_error,
    {
        self.vel + sensor_error
    }

    /// The measured acceleration: the true acceleration plus the
    /// sensor-error sample drawn for this read.
    pub fn accl(&self, sensor_error: i64) -> (r: i64)
        requires
            -DIV_BOUND <= self@.acc <= DIV_BOUND,
            -IN_BOUND <= sensor_error <= IN_BOUND,
        ensures
            r == self@.acc + sensor_error,
    {
        self.acc + sensor_error
    }
}

impl Default for Vehicle {
    /// A vehicle at rest on the ground with the stock configuration:
    /// thrust 40, actuation error spread 2, sensor error mean 0.1 and
    /// spread 0.5, ambient force spread 5.75 (all fixed-point).
    fn default() -> (v: Vehicle)
        ensures
            v@.pos == 0,
            v@.vel == 0,
            v@.acc == 0,
            v@.thrust == 400_000,
            v@.thrust_err == (NoiseDistV { mean: 0, std_dev: 20_000 }),
            v@.sensor_err == (NoiseDistV { mean: 1_000, std_dev: 5_000 }),
            v@.rand_force == (NoiseDistV { mean: 0, std_dev: 57_500 }),
    {
        Vehicle {
            pos: 0,
            vel: 0,
            acc: 0,
            thrust: 400_000,
            thrust_err: NoiseDist { mean: 0, std_dev: 20_000 },
            sensor_err: NoiseDist { mean: 1_000, std_dev: 5_000 },
            rand_force: NoiseDist { mean: 0, std_dev: 57_500 },
        }
    }
}

/// Ground invariant: whatever the inputs, a tick never ends below the floor,
/// and a vehicle resting on the floor never ends with downward velocity.
pub proof fn lemma_tick_ground(
    v: VehicleV,
    frac: int,
    dt: int,
    thrust_error: int,
    ambient_force: int,
)
    ensures
        tick_spec(v, frac, dt, thrust_error, ambient_force).pos >= 0,
        tick_spec(v, frac, dt, thrust_error, ambient_force).pos == 0
            ==> tick_spec(v, frac, dt, thrust_error, ambient_force).vel >= 0,
{
}

/// With both disturbance samples zero, a tick is exact constant-acceleration
/// kinematics: as long as the floor is not touched, the new position is
/// `pos + vel*dt + a*dt^2/2` and the new velocity is `vel + a*dt`, with
/// `a = thrust*frac - g` the noiseless net acceleration.
pub proof fn lemma_tick_noiseless_kinematics(v: VehicleV, frac: int, dt: int)
    requires
        kin_pos(v.pos, v.vel, net_accel(v.thrust, frac, 0, 0), dt) > 0,
    ensures
        tick_spec(v, frac, dt, 0, 0).pos
            == kin_pos(v.pos, v.vel, net_accel(v.thrust, frac, 0, 0), dt),
        tick_spec(v, frac, dt, 0, 0).vel
            == kin_vel(v.vel, net_accel(v.thrust, frac, 0, 0), dt),
        tick_spec(v, frac, dt, 0, 0).acc == net_accel(v.thrust, frac, 0, 0),
{
}

} // verus!
