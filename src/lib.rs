//! Retry delays for clients that back off after failures and recover after
//! successes.
//!
//! Durations are whole nanoseconds held in `u64`. Multipliers and running
//! factors of the adaptive layer are fixed-point numbers counted in
//! thousandths (see `adaptive::UNIT`).
pub mod adaptive;
pub mod backoff;
pub mod errors;
pub mod prelude;

pub use adaptive::{Adaptable, Adaptive, AdaptiveBuilder};
pub use backoff::{Backoff, BackoffBuilder, ExponentialBackoff, ExponentialBackoffBuilder};
pub use errors::AdaptiveError;
