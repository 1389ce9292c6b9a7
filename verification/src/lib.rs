//! Channel configuration, build planning and request routing for an xDS-capable
//! gRPC client.

pub mod bootstrap;
pub mod channel;
pub mod config;
pub mod error;
pub mod instances;
pub mod laws;
pub mod route;
pub mod uri;
