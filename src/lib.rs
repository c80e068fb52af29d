//! Maximum absolute deviation of every sample of an array from the whole
//! array, computed by several execution strategies.
//!
//! A sample is a number in the unit interval `[0, 1)` held as a whole count
//! of steps of `2^-53`: the sample `k` stands for `k / 2^53`. Every `f64`
//! that `rand` draws from its standard distribution has exactly this form,
//! and so has the difference of two of them, so integer arithmetic on the
//! step counts gives the same numbers as floating-point arithmetic on the
//! values they stand for.

pub mod args;
pub mod deviation;
pub mod laws;
pub mod runners;
pub mod samples;

pub use deviation::{max_deviation, unit_deviation};
pub use runners::{complete_run, sequential_deviations, RunError};
pub use samples::{generate_samples, sample_from_word, SAMPLE_STEPS};
pub use args::{parse_count, sample_count, StartupError, DEFAULT_SAMPLE_COUNT};
