//! Drives the verified run recorder with real IEEE-754 arithmetic: the
//! forward Euler recurrence for y' = cos(t) - y and the closed-form
//! solution y(t) = (e^-t + cos(t) + sin(t)) / 2.

use euler_ode::errors::SolverError;
use euler_ode::run::RunRecorder;

/// Right-hand side of the ODE: y' = cos(t) - y.
fn rhs(t: f64, y: f64) -> f64 {
    t.cos() - y
}

/// Closed-form solution: y(t) = (e^-t + cos(t) + sin(t)) / 2.
fn y_analytic(t: f64) -> f64 {
    ((-t).exp() + t.cos() + t.sin()) / 2.0
}

/// Uniform step size over [start, end] with n steps.
fn step_size(start: f64, end: f64, n: usize) -> f64 {
    (end - start) / n as f64
}

/// Forward Euler over [t0, t_end] with n steps, through the recorder.
fn euler_solve(
    t0: f64,
    y0: f64,
    t_end: f64,
    n: usize,
) -> Result<(Vec<f64>, Vec<f64>), SolverError> {
    let mut run = RunRecorder::new(t0.to_bits(), y0.to_bits(), n)?;
    let h = step_size(t0, t_end, n);
    while run.needs_step() {
        let t = f64::from_bits(run.pending_time_bits());
        let y = f64::from_bits(run.pending_state_bits());
        let y_next = y + h * rhs(t, y);
        let t_next = t + h;
        run.step(t_next.to_bits(), y_next.to_bits());
    }
    let (ts, ys) = run.finish();
    let ts: Vec<f64> = ts.into_iter().map(f64::from_bits).collect();
    let ys: Vec<f64> = ys.into_iter().map(f64::from_bits).collect();
    Ok((ts, ys))
}

/// The analytic solution sampled on the same kind of uniform grid.
fn analytic_solve(t0: f64, t_end: f64, n: usize) -> Result<(Vec<f64>, Vec<f64>), SolverError> {
    let mut run = RunRecorder::new(t0.to_bits(), y_analytic(t0).to_bits(), n)?;
    let h = step_size(t0, t_end, n);
    while run.needs_step() {
        let t = f64::from_bits(run.pending_time_bits());
        let t_next = t + h;
        run.step(t_next.to_bits(), y_analytic(t_next).to_bits());
    }
    let (ts, ys) = run.finish();
    let ts: Vec<f64> = ts.into_iter().map(f64::from_bits).collect();
    let ys: Vec<f64> = ys.into_iter().map(f64::from_bits).collect();
    Ok((ts, ys))
}

#[test]
fn grid_has_expected_shape() {
    for &(t0, y0, t_end, n) in &[
        (0.0, 1.0, 5.0, 20usize),
        (0.0, 1.0, 5.0, 200),
        (0.0, 1.0, 5.0, 1000),
        (1.5, -2.0, 3.0, 7),
    ] {
        let (ts, ys) = euler_solve(t0, y0, t_end, n).unwrap();
        assert_eq!(ts.len(), n + 1);
        assert_eq!(ys.len(), n + 1);
        assert_eq!(ts[0], t0);
        for i in 1..ts.len() {
            assert!(ts[i - 1] < ts[i]);
        }
        assert!((ts[n] - t_end).abs() < 1e-9);
    }
}

#[test]
fn trajectory_starts_at_initial_value() {
    let (_, ys) = euler_solve(0.0, 1.0, 5.0, 20).unwrap();
    assert_eq!(ys[0], 1.0);
    assert_eq!(ys[0].to_bits(), 1.0f64.to_bits());
    let (_, ys) = euler_solve(2.0, -0.75, 6.0, 13).unwrap();
    assert_eq!(ys[0].to_bits(), (-0.75f64).to_bits());
}

#[test]
fn euler_solve_is_bit_identical_across_calls() {
    let (ts_a, ys_a) = euler_solve(0.0, 1.0, 5.0, 1000).unwrap();
    let (ts_b, ys_b) = euler_solve(0.0, 1.0, 5.0, 1000).unwrap();
    assert_eq!(ts_a.len(), ts_b.len());
    assert_eq!(ys_a.len(), ys_b.len());
    for i in 0..ts_a.len() {
        assert_eq!(ts_a[i].to_bits(), ts_b[i].to_bits());
        assert_eq!(ys_a[i].to_bits(), ys_b[i].to_bits());
    }
}

#[test]
fn max_error_decreases_with_resolution() {
    let mut previous = f64::INFINITY;
    for &n in &[20usize, 200, 1000] {
        let (_, ys) = euler_solve(0.0, 1.0, 5.0, n).unwrap();
        let (_, ya) = analytic_solve(0.0, 5.0, n).unwrap();
        let mut max_err = 0.0f64;
        for i in 0..ys.len() {
            let e = (ys[i] - ya[i]).abs();
            if e > max_err {
                max_err = e;
            }
        }
        assert!(max_err < previous);
        previous = max_err;
    }
}

#[test]
fn analytic_value_at_zero_is_one() {
    assert!((y_analytic(0.0) - 1.0).abs() < 1e-12);
    // The chosen initial condition (t0 = 0, y0 = 1) lies on the analytic
    // solution.
    let (t0, y0) = (0.0, 1.0);
    assert!((y_analytic(t0) - y0).abs() < 1e-12);
}

#[test]
fn coarse_run_first_samples() {
    let (ts, ys) = euler_solve(0.0, 1.0, 5.0, 20).unwrap();
    assert_eq!(step_size(0.0, 5.0, 20), 0.25);
    assert_eq!(ts[0], 0.0);
    assert_eq!(ts[1], 0.25);
    assert_eq!(ys[0], 1.0);
    // y1 = 1 + 0.25 * (cos(0) - 1) = 1 exactly.
    assert_eq!(ys[1], 1.0);
}

#[test]
fn zero_steps_is_invalid_argument() {
    assert_eq!(
        RunRecorder::new(0.0f64.to_bits(), 1.0f64.to_bits(), 0).err(),
        Some(SolverError::InvalidArgument)
    );
    assert_eq!(euler_solve(0.0, 1.0, 5.0, 0).err(), Some(SolverError::InvalidArgument));
    assert_eq!(analytic_solve(0.0, 5.0, 0).err(), Some(SolverError::InvalidArgument));
}

#[test]
fn analytic_run_shares_the_grid() {
    let (ts_e, _) = euler_solve(0.0, 1.0, 5.0, 50).unwrap();
    let (ts_a, ya) = analytic_solve(0.0, 5.0, 50).unwrap();
    assert_eq!(ts_e.len(), ts_a.len());
    for i in 0..ts_e.len() {
        assert_eq!(ts_e[i].to_bits(), ts_a[i].to_bits());
        assert_eq!(ya[i].to_bits(), y_analytic(ts_a[i]).to_bits());
    }
}
