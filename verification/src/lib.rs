//! Helix: the verified core of a multi-sensor altitude and navigation fusion engine.
//!
//! The library holds everything the engine decides on integers and bytes: the
//! wire layout of the sensor packets, the bookkeeping of the complementary
//! filter, the scheduling decisions of the fusion loop, and the engine
//! configuration with its environment overrides.

pub mod config;
pub mod fusion;
pub mod sensor;
