//! Measurement engine for scheduler-overhead microbenchmarks.
//!
//! The library builds a linear chain of single-slot data links, forwards a
//! payload through it one transformation step per unit, and accumulates the
//! elapsed wall-clock times of measured iterations into streaming statistics.

pub mod chain;
pub mod clock;
pub mod duration;
pub mod errors;
pub mod relay_driver;
pub mod spawn_driver;
pub mod stats;
