//! Verified core of a fixed-step explicit (forward) Euler pipeline.
//!
//! The pipeline integrates a first-order scalar ordinary differential
//! equation on a uniform time grid, samples a closed-form reference solution
//! on the same kind of grid, and aligns a coarse run against a fine run by a
//! tolerance match on sample times.
//!
//! Floating-point arithmetic itself (the right-hand side, the analytic
//! formula, the step updates, and the time-tolerance comparison) stays with
//! the caller; the scalar samples pass through this crate as opaque IEEE-754
//! bit patterns (`u64`). What this crate owns and verifies is everything
//! else the pipeline decides: how a run is validated, how many samples are
//! recorded, in what order, where each recorded value comes from, and how
//! the alignment cursor walks the coarse grid.

pub mod align;
pub mod errors;
pub mod run;
