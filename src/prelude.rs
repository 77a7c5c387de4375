//! The library's main traits and types in one place.
pub use crate::adaptive::{Adaptable, Adaptive, AdaptiveBuilder};
pub use crate::backoff::{Backoff, BackoffBuilder, ExponentialBackoff, ExponentialBackoffBuilder};
pub use crate::errors::AdaptiveError;
