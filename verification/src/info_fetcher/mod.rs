//! What the info fetchers have in common.
pub mod cache;
pub mod config;
pub mod credentials;
pub mod http;
pub mod secret;
pub mod telemetry;
pub mod token;
