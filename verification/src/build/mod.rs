//! Configuration of the AWS C library builds: target detection, detected
//! compiler properties and what they add to a `cc::Build`, header
//! templates and the names the build reads from its environment.
pub mod cbuild;
pub mod header;
pub mod target;
pub mod properties;
pub mod names;
pub mod sources;
pub mod probes;
pub mod allowlist;
pub mod to_cow;
pub mod builder;
