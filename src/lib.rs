//! Periodic sampling of DHT22 temperature/humidity sensors into metric datapoints.
//!
//! The library holds the decisions of the service: naming and stamping the
//! datapoints of a reading, the retry policy of the per-sensor reader, merging
//! the samples of one cycle, classifying the answer of the metrics endpoint,
//! and validating the refresh period. Hardware access, clocks, timers and the
//! network stay with the caller, which feeds their results in as plain values.

pub mod sensor;
pub mod datapoint;
pub mod reader;
pub mod fleet;
pub mod submit;
pub mod settings;
