//! Closed-form probability distributions (exponential, normal, uniform) whose parameters,
//! points and results are exact rational numbers.
pub mod distribution;
pub mod graph;
pub mod ratio;
