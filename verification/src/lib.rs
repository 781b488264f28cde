//! Verified core of the beluga AWS IoT client: protocol enums, tunnel
//! framing, MQTT client bookkeeping, job records, logging subjects, error
//! codes and the C build configuration logic.
pub mod text;
pub mod proto;
pub mod logging;
pub mod framing;
pub mod mqtt;
pub mod jobs;
pub mod tunnel;
pub mod build;
pub mod connect;
pub mod future;
pub mod crt;
