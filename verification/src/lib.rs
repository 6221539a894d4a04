//! A request-dispatch subsystem for parachain runtime queries.

pub mod dispatch;
pub mod errors;
pub mod laws;
pub mod messages;
pub mod metrics;
pub mod primitives;
pub mod provider;
pub mod subsystem;
