use hoversim::sim::{NoiseDist, Vehicle};

fn vehicle_at(pos: i64, vel: i64) -> Vehicle {
    Vehicle { pos, vel, ..Vehicle::default() }
}

#[test]
fn noise_dist_rejects_negative_spread() {
    // An invalid noise configuration fails at construction, before any tick.
    assert!(NoiseDist::new(0, -1).is_none());
    assert!(NoiseDist::new(100, -20_000).is_none());
    let d = NoiseDist::new(-500, 20_000).unwrap();
    assert_eq!(d.mean(), -500);
    assert_eq!(d.std_dev(), 20_000);
    assert!(NoiseDist::new(0, 0).is_some());
}

#[test]
fn tick_exact_kinematics_zero_noise() {
    // One tick of 0.1 s at full commanded thrust with zero noise:
    // a = 40*1 - 9.81 = 30.19, pos' = a*dt^2/2, vel' = a*dt, exactly.
    let mut v = vehicle_at(1_000_000, 0);
    v.tick(10_000, 1000, 0, 0);
    assert_eq!(v.acc, 301_900);
    assert_eq!(v.pos, 1_001_509);
    assert_eq!(v.vel, 30_190);
}

#[test]
fn tick_clamps_commanded_fraction() {
    // A fraction beyond [0, 1] is clamped by the vehicle itself.
    let mut a = vehicle_at(1_000_000, 0);
    let mut b = vehicle_at(1_000_000, 0);
    a.tick(20_000, 1000, 0, 0);
    b.tick(10_000, 1000, 0, 0);
    assert_eq!(a, b);

    let mut c = vehicle_at(1_000_000, 0);
    let mut d = vehicle_at(1_000_000, 0);
    c.tick(-5_000, 1000, 0, 0);
    d.tick(0, 1000, 0, 0);
    assert_eq!(c, d);
}

#[test]
fn tick_applies_noise_samples() {
    // Disturbance samples enter the net acceleration additively.
    let mut v = vehicle_at(1_000_000, 0);
    v.tick(10_000, 1000, 5_000, -20_000);
    assert_eq!(v.acc, 301_900 + 5_000 - 20_000);
}

#[test]
fn ground_clamps_position_and_velocity() {
    // A vehicle driven through the floor ends resting on it: position 0 and
    // the downward velocity zeroed.
    let mut v = vehicle_at(100, -500_000);
    v.tick(0, 1000, 0, 0);
    assert_eq!(v.pos, 0);
    assert_eq!(v.vel, 0);
}

#[test]
fn ground_preserves_lift_off() {
    // A grounded vehicle accelerating upward keeps its upward velocity.
    let mut v = vehicle_at(0, 0);
    v.tick(10_000, 1000, 0, 0);
    assert_eq!(v.pos, 1509);
    assert_eq!(v.vel, 30_190);
}

#[test]
fn position_is_noiseless_and_idempotent() {
    let v = vehicle_at(123_456, -789);
    assert_eq!(v.pos(), 123_456);
    assert_eq!(v.pos(), v.pos());
}

#[test]
fn noisy_accessors_add_their_sample() {
    // The noisy accessors are deterministic in the handed sample: the same
    // sample reads identically, different samples differ by their difference.
    let mut v = vehicle_at(0, 31_416);
    v.tick(10_000, 1000, 0, 0);
    let vel = v.vel;
    assert_eq!(v.velocity(0), vel);
    assert_eq!(v.velocity(700), vel + 700);
    assert_eq!(v.velocity(700), v.velocity(700));
    assert_ne!(v.velocity(700), v.velocity(-700));
    let acc = v.acc;
    assert_eq!(v.accl(-42), acc - 42);
}

#[test]
fn free_fall_until_grounded() {
    // Zero commanded thrust and zero noise from 100 units up with dt = 0.1:
    // velocity is exactly -9.81 * n * 0.1 while airborne; on the tick the
    // position reaches the floor it clamps to 0 and the velocity is zeroed,
    // and the vehicle then stays put.
    let mut v = vehicle_at(1_000_000, 0);
    let mut n: i64 = 0;
    while v.pos > 0 {
        v.tick(0, 1000, 0, 0);
        n += 1;
        if v.pos > 0 {
            assert_eq!(v.vel, -9_810 * n);
        }
        assert!(n < 100, "never grounded");
    }
    assert_eq!(n, 46);
    assert_eq!(v.pos, 0);
    assert_eq!(v.vel, 0);
    for _ in 0..10 {
        v.tick(0, 1000, 0, 0);
        assert_eq!(v.pos, 0);
        assert_eq!(v.vel, 0);
    }
}

#[test]
fn default_vehicle_configuration() {
    let v = Vehicle::default();
    assert_eq!(v.pos, 0);
    assert_eq!(v.vel, 0);
    assert_eq!(v.acc, 0);
    assert_eq!(v.thrust, 400_000);
    assert_eq!(v.thrust_err.mean(), 0);
    assert_eq!(v.thrust_err.std_dev(), 20_000);
    assert_eq!(v.sensor_err.mean(), 1_000);
    assert_eq!(v.sensor_err.std_dev(), 5_000);
    assert_eq!(v.rand_force.mean(), 0);
    assert_eq!(v.rand_force.std_dev(), 57_500);
}
