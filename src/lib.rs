//! Canonical instruments, subscription identifiers and the per-exchange
//! socket and stream multiplexing logic built on them.

pub mod instrument;
pub mod join;
pub mod socket;
pub mod streams;
pub mod subscription;

pub use instrument::{FutureKind, Instrument, InstrumentKind, Symbol};
pub use subscription::SubscriptionId;
