//! Runtime telemetry streaming engine.
//!
//! A fixed-capacity, rate-multiplexed, bounds/alignment-validated memory
//! sampler driven by a small line-oriented command protocol, together with
//! the statically declared typed slot read path that the same validation
//! logic protects, and the pure helper logic (color conversion, rotation
//! estimation, counters) that shares the firmware with it.

pub mod button;
pub mod cli;
pub mod color;
pub mod engine;
pub mod led;
pub mod logfmt;
pub mod mpu9250;
pub mod numfmt;
pub mod numparse;
pub mod packet;
pub mod protocol;
pub mod records;
pub mod rotation;
pub mod scheduler;
pub mod slots;
pub mod table;
pub mod telemetry;
pub mod terminal;
pub mod tokenize;
pub mod validator;
