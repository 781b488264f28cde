//! The MQTT client: codes, errors, configuration and client bookkeeping.
pub mod codes;
pub mod error;
pub mod config;
pub mod status;
pub mod subscription;
pub mod client;
