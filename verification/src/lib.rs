//! Clock-offset estimation from one-way-delay difference samples.
//!
//! The pipeline models the observed delay differences as Gamma-distributed,
//! draws a synthetic reference sample from the fitted distribution with a
//! seeded pseudorandom generator, and reads the offset from a
//! quantile-quantile regression between the two sorted samples.
//!
//! This crate holds the verified integer core of that pipeline: the
//! deterministic linear-congruential generator that every synthetic draw is
//! built on, the seed-resolution policy, the sample-count rule, and the error
//! taxonomy of the whole pipeline.

pub mod estimate;
pub mod rng;

pub use estimate::check_sample_count;
pub use estimate::resolve_seed;
pub use estimate::EstimateError;
pub use rng::LcgRng;
