//! Authorization-gated registry of named resources with usage metering.

pub mod error;
pub mod guard;
pub mod laws;
pub mod model;
pub mod param;
pub mod relay;
pub mod sponsor;
pub mod state;
pub mod store;
pub mod table;
