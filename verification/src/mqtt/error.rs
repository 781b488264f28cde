//! Errors of the MQTT, jobs and tunnel clients.
use vstd::prelude::*;
use crate::jobs::RejectedOwned;

verus! {

/// Errors of the MQTT, jobs and tunnel clients.
#[derive(Debug)]
pub enum Error {
    /// A string for the C side held a NUL byte at this position.
    StringConversion(usize),
    /// The MQTT client could not be created or did not connect.
    MqttClientCreate,
    /// The MQTT client is not connected.
    NotConnected,
    /// An error reported by the AWS MQTT library.
    AwsMqttError(crate::mqtt::codes::AwsMqttError),
    /// An error code the AWS MQTT library does not define.
    AwsUnknownMqttError(i32),
    /// No response arrived for a publish or unsubscribe.
    AwsReceiveResponse,
    /// No message arrived for a subscription.
    AwsReceiveMessage,
    MissEndpoint,
    MissClientId,
    MissCertificate,
    MissPrivateKey,
    /// A topic that cannot be handed to the C side.
    InvalidTopic(String),
    /// An operation did not finish in time.
    Timeout,
    /// A number that names no value of the enum of that name.
    UnrecognizedEnumValue(isize, &'static str),
    TunnelClientCreate,
    TunnelCreate,
    /// An I/O failure of a tunnel session, with its description.
    IoError(String),
    JobCreate,
    JobsClientCreate,
    /// A request could not be published.
    Publish,
    /// A response channel closed before a response arrived.
    Receive,
    /// The jobs service rejected a request.
    Rejected(RejectedOwned),
    /// No pending job to start.
    NoPendingJobs,
}

/// The result of reading a numeric code as a value of the enum `name`.
pub open spec fn enum_result<T>(v: Option<T>, value: isize, name: &'static str) -> Result<T, Error> {
    match v {
        Some(t) => Ok(t),
        None => Err(Error::UnrecognizedEnumValue(value, name)),
    }
}

} // verus!
