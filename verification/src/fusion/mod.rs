//! Fusion: the complementary filter's clock and the scheduling decisions of
//! the fusion loop.

pub mod filter;
pub mod schedule;

pub use filter::FilterClock;
pub use schedule::FusionState;
