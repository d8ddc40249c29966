use hoversim::pid::{Config, Controller, Input};

fn controller_with(gen: usize, last_time: i64, error: i64, integral: i64, derivative: i64) -> Controller {
    Controller {
        config: Config { p: 750, i: 15, d: 1000 },
        generation: gen,
        input: Input { time: last_time, setpoint: 0, measured: 0 },
        error,
        integral,
        derivative,
    }
}

#[test]
fn first_step_derivative_zero() {
    // At generation 0 the derivative is defined to be zero whatever the error.
    let c = Controller::default();
    let r = c.step(&Input { time: 1000, setpoint: 500_000, measured: 0 });
    assert_eq!(r.derivative, 0);
    assert_eq!(r.error, 500_000);

    let r2 = c.step(&Input { time: 500, setpoint: -987_654, measured: 123_456 });
    assert_eq!(r2.derivative, 0);
}

#[test]
fn step_exact_values() {
    let c = Controller::default();
    let r = c.step(&Input { time: 1000, setpoint: 500_000, measured: 0 });
    assert_eq!(r.error, 500_000);
    assert_eq!(r.integral, 50_000);
    assert_eq!(r.derivative, 0);
    assert_eq!(r.generation, 1);
    assert_eq!(r.output(), 37_575);
}

#[test]
fn derivative_is_backward_difference() {
    // generation 1, previous error 100000 at time 1000; new error 300000 at
    // time 2000: slope = (300000 - 100000) / 0.1 s.
    let c = controller_with(1, 1000, 100_000, 0, 0);
    let r = c.step(&Input { time: 2000, setpoint: 300_000, measured: 0 });
    assert_eq!(r.error, 300_000);
    assert_eq!(r.derivative, 2_000_000);
}

#[test]
fn zero_dt_holds_previous_derivative() {
    // Time not advancing would divide by zero; the previous derivative is
    // held instead of producing a corrupt value.
    let c = controller_with(3, 1000, 100_000, 5_000, 7777);
    let r = c.step(&Input { time: 1000, setpoint: 200_000, measured: 0 });
    assert_eq!(r.derivative, 7777);
    // The error and integral still update.
    assert_eq!(r.error, 200_000);
    assert_eq!(r.integral, 5_000);
}

#[test]
fn step_is_deterministic() {
    // Two independent runs over the same sample sequence give bit-identical
    // error, integral, derivative and output at every step.
    let samples = [
        Input { time: 1000, setpoint: 500_000, measured: 0 },
        Input { time: 2000, setpoint: 500_000, measured: 10_000 },
        Input { time: 3000, setpoint: -200_000, measured: 50_000 },
        Input { time: 4000, setpoint: 750_000, measured: -30_000 },
    ];
    let mut a = Controller::default();
    let mut b = Controller::default();
    for s in samples.iter() {
        a = a.step(s);
        b = b.step(s);
        assert_eq!(a, b);
        assert_eq!(a.output(), b.output());
    }
}

#[test]
fn output_is_gain_weighted_sum() {
    // p*error + i*integral + d*derivative with fixed-point products.
    let c = controller_with(2, 0, 400_000, 20_000, -14_340);
    // 0.075*40 + 0.0015*2 + 0.1*(-1.434) = 3 + 0.003 - 0.1434
    assert_eq!(c.output(), 30_000 + 30 - 1_434);
}

#[test]
fn output_is_a_pure_query() {
    let c = controller_with(2, 0, 400_000, 20_000, -14_340);
    let before = c;
    let o1 = c.output();
    let o2 = c.output();
    assert_eq!(o1, o2);
    assert_eq!(c, before);
}

#[test]
fn generation_increments_by_one() {
    let mut c = Controller::default();
    assert_eq!(c.generation, 0);
    for k in 1..6usize {
        c = c.step(&Input { time: 1000 * k as i64, setpoint: 500_000, measured: 0 });
        assert_eq!(c.generation, k);
    }
}
