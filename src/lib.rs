//! Monte Carlo estimation of pi.
//!
//! Estimates are fixed-point numbers: a `u64` holding the value times
//! `ONE` (32 fractional bits). A batch of uniformly drawn points in the unit
//! square gives one local estimate; workers fold their local estimates into a
//! shared running estimate and stop once it lies within a threshold of pi.
pub mod fixed;
pub mod estimate;
pub mod sampler;

pub use estimate::{lemma_update_twice, update_estimate};
pub use fixed::{absolute_error, is_converged, ONE, PI_FIXED};
pub use sampler::{batch_estimate, count_inside_points, is_inside, run_samples, CHUNK_POINTS};
