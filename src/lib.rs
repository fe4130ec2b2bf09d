//! A debounce-and-batch aggregator: items are coalesced into a set and released
//! as one batch once submissions go quiet, or once the batch has been pending for
//! longer than a configured maximum delay.
//!
//! The aggregator is a pure state machine. Every event (a submission, the firing
//! of its timer) returns an [`Action`] that tells the host which timer to cancel,
//! which timer to arm and which batch to hand to the consumer.

pub mod model;
pub mod aggregator;
pub mod laws;

pub use aggregator::{Action, Aggregator, AggregatorCmd};
pub use model::{ActionView, AggState};
