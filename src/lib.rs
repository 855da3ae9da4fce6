//! Samples the status of a chess-analysis worker pool and turns it into a
//! fixed batch of dimensioned metric points.
pub mod status;
pub mod metrics;
pub mod json;
pub mod decode;
pub mod probe;
