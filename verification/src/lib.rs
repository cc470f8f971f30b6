//! Startup "full pipe" estimator of a BBR-style congestion controller.
//!
//! Once per round trip the [`Estimator`] decides whether the connection has
//! stopped finding more bandwidth. Three checks feed one sticky flag: a
//! plateau of the maximum bandwidth, sustained bursty loss while in recovery,
//! and consecutive rounds of heavy ECN-CE marking.

pub mod bandwidth;
pub mod counter;
pub mod estimator;
pub mod laws;
pub mod model;
pub mod ratio;
pub mod sample;

pub use bandwidth::{Bandwidth, NANOS_PER_SECOND};
pub use counter::Counter;
pub use estimator::Estimator;
pub use sample::{is_inflight_too_high, RateSample, MINIMUM_MTU};
