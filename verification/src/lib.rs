//! A host-telemetry sampling core: on each tick of a periodic driver it turns
//! raw operating-system readings into an immutable [`snapshot::Snapshot`],
//! publishes the latest snapshot for display, and renders each snapshot as one
//! record of an append-only, comma-separated log.

pub mod appender;
pub mod clock;
pub mod collector;
pub mod csvrow;
pub mod driver;
pub mod numfmt;
pub mod osquery;
pub mod snapshot;
pub mod store;
