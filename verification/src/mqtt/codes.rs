//! Numeric codes exchanged with the AWS MQTT library: quality of service,
//! MQTT error codes and CONNACK return codes.
use vstd::prelude::*;
use crate::mqtt::error::{Error, enum_result};

verus! {

pub const QOS_NAME: &'static str = "Qos";
pub const AWSMQTTERROR_NAME: &'static str = "AwsMqttError";
pub const AWSMQTTCONNECTRETURNCODE_NAME: &'static str = "AwsMqttConnectReturnCode";

/// The package id of the AWS MQTT library, which numbers its error codes.
pub const AWS_C_MQTT_PACKAGE_ID: i32 = 5;

/// Number of bits of an error code that number errors inside a package.
pub const AWS_ERROR_ENUM_STRIDE_BITS: i32 = 10;

/// MQTT quality of service of a message.
#[derive(Clone, Copy, Debug, PartialEq, Eq, Structural)]
pub enum Qos {
    AtMostOnce,
    AtLeastOnce,
    ExactlyOnce,
    QosFailure,
}

/// The numeric code of each `Qos` value.
pub open spec fn qos_code(v: Qos) -> int {
    match v {
        Qos::AtMostOnce => 0,
        Qos::AtLeastOnce => 1,
        Qos::ExactlyOnce => 2,
        Qos::QosFailure => 128,
    }
}

/// The `Qos` value with numeric code `n`, if any.
pub open spec fn qos_of_code(n: int) -> Option<Qos> {
    if n == 0 {
        Some(Qos::AtMostOnce)
    } else if n == 1 {
        Some(Qos::AtLeastOnce)
    } else if n == 2 {
        Some(Qos::ExactlyOnce)
    } else if n == 128 {
        Some(Qos::QosFailure)
    } else {
        None
    }
}

impl Qos {
    /// The numeric code of the value.
    pub fn code(&self) -> (r: i32)
        ensures
            r == qos_code(*self),
    {
        match self {
            Qos::AtMostOnce => 0,
            Qos::AtLeastOnce => 1,
            Qos::ExactlyOnce => 2,
            Qos::QosFailure => 128,
        }
    }

    /// The value with the given numeric code; any other number is an
    /// unrecognized value of this enum.
    pub fn try_from_i32(value: i32) -> (r: Result<Qos, Error>)
        ensures
            r == enum_result(qos_of_code(value as int), value as isize, QOS_NAME),
    {
        if value == 0 {
            Ok(Qos::AtMostOnce)
        } else if value == 1 {
            Ok(Qos::AtLeastOnce)
        } else if value == 2 {
            Ok(Qos::ExactlyOnce)
        } else if value == 128 {
            Ok(Qos::QosFailure)
        } else {
            Err(Error::UnrecognizedEnumValue(value as isize, QOS_NAME))
        }
    }

    /// As `try_from_i32`, for an `isize` code.
    pub fn try_from_isize(value: isize) -> (r: Result<Qos, Error>)
        ensures
            r == enum_result(qos_of_code(value as int), value, QOS_NAME),
    {
        if i32::MIN as isize <= value && value <= i32::MAX as isize {
            Self::try_from_i32(value as i32)
        } else {
            Err(Error::UnrecognizedEnumValue(value, QOS_NAME))
        }
    }

    /// As `try_from_i32`, for a `u32` code.
    pub fn try_from_u32(value: u32) -> (r: Result<Qos, Error>)
        ensures
            r == enum_result(qos_of_code(value as int), value as isize, QOS_NAME),
    {
        if value <= i32::MAX as u32 {
            Self::try_from_i32(value as i32)
        } else {
            Err(Error::UnrecognizedEnumValue(value as isize, QOS_NAME))
        }
    }
}

/// Reading back the code of a value gives the value, and a code that
/// names a value is that value's code.
pub proof fn lemma_qos_code_round_trip(v: Qos, n: int)
    ensures
        qos_of_code(qos_code(v)) == Some(v),
        qos_of_code(n) == Some(v) ==> qos_code(v) == n,
{
}

/// Error codes of the AWS MQTT library: the range that begins at
/// `AWS_C_MQTT_PACKAGE_ID << AWS_ERROR_ENUM_STRIDE_BITS`, and its last code.
#[derive(Clone, Copy, Debug, PartialEq, Eq, Structural)]
pub enum AwsMqttError {
    MqttInvalidReservedBits,
    BufferTooBig,
    InvalidRemainingLength,
    UnsupportedProtocolName,
    UnsupportedProtocolLevel,
    InvalidCredentials,
    InvalidQos,
    InvalidPacketType,
    InvalidTopic,
    Timeout,
    ProtocolError,
    NotConnected,
    AlreadyConnected,
    BuiltWithoutWebsockets,
    UnexpectedHangup,
    ConnectionShutdown,
    ConnectionDestroyed,
    ConnectionDisconnecting,
    CancelledForCleanSession,
    QueueFull,
    ClientOptionsValidation,
    ConnectOptionsValidation,
    DisconnectOptionsValidation,
    PublishOptionsValidation,
    SubscribeOptionsValidation,
    UnsubscribeOptionsValidation,
    UserPropertyValidation,
    PacketValidation,
    EncodeFailure,
    DecodeProtocolError,
    ConnackConnectionRefused,
    ConnackTimeout,
    PingResponseTimeout,
    UserRequestedStop,
    DisconnectReceived,
    ClientTerminated,
    OperationFailedDueToOfflineQueuePolicy,
    EncodeSizeUnsupportedPacketType,
    OperationProcessingFailure,
    InvalidInboundTopicAlias,
    InvalidOutboundTopicAlias,
    InvalidUtf8String,
    ConnectionResetForAdapterConnect,
    ConnectionResubscribeNoTopics,
    EndMqttRange,
}

/// The numeric code of each `AwsMqttError` value.
pub open spec fn mqtt_error_code(v: AwsMqttError) -> int {
    match v {
        AwsMqttError::MqttInvalidReservedBits => 5120,
        AwsMqttError::BufferTooBig => 5121,
        AwsMqttError::InvalidRemainingLength => 5122,
        AwsMqttError::UnsupportedProtocolName => 5123,
        AwsMqttError::UnsupportedProtocolLevel => 5124,
        AwsMqttError::InvalidCredentials => 5125,
        AwsMqttError::InvalidQos => 5126,
        AwsMqttError::InvalidPacketType => 5127,
        AwsMqttError::InvalidTopic => 5128,
        AwsMqttError::Timeout => 5129,
        AwsMqttError::ProtocolError => 5130,
        AwsMqttError::NotConnected => 5131,
        AwsMqttError::AlreadyConnected => 5132,
        AwsMqttError::BuiltWithoutWebsockets => 5133,
        AwsMqttError::UnexpectedHangup => 5134,
        AwsMqttError::ConnectionShutdown => 5135,
        AwsMqttError::ConnectionDestroyed => 5136,
        AwsMqttError::ConnectionDisconnecting => 5137,
        AwsMqttError::CancelledForCleanSession => 5138,
        AwsMqttError::QueueFull => 5139,
        AwsMqttError::ClientOptionsValidation => 5140,
        AwsMqttError::ConnectOptionsValidation => 5141,
        AwsMqttError::DisconnectOptionsValidation => 5142,
        AwsMqttError::PublishOptionsValidation => 5143,
        AwsMqttError::SubscribeOptionsValidation => 5144,
        AwsMqttError::UnsubscribeOptionsValidation => 5145,
        AwsMqttError::UserPropertyValidation => 5146,
        AwsMqttError::PacketValidation => 5147,
        AwsMqttError::EncodeFailure => 5148,
        AwsMqttError::DecodeProtocolError => 5149,
        AwsMqttError::ConnackConnectionRefused => 5150,
        AwsMqttError::ConnackTimeout => 5151,
        AwsMqttError::PingResponseTimeout => 5152,
        AwsMqttError::UserRequestedStop => 5153,
        AwsMqttError::DisconnectReceived => 5154,
        AwsMqttError::ClientTerminated => 5155,
        AwsMqttError::OperationFailedDueToOfflineQueuePolicy => 5156,
        AwsMqttError::EncodeSizeUnsupportedPacketType => 5157,
        AwsMqttError::OperationProcessingFailure => 5158,
        AwsMqttError::InvalidInboundTopicAlias => 5159,
        AwsMqttError::InvalidOutboundTopicAlias => 5160,
        AwsMqttError::InvalidUtf8String => 5161,
        AwsMqttError::ConnectionResetForAdapterConnect => 5162,
        AwsMqttError::ConnectionResubscribeNoTopics => 5163,
        AwsMqttError::EndMqttRange => 6143,
    }
}

/// The `AwsMqttError` value with numeric code `n`, if any.
pub open spec fn mqtt_error_of_code(n: int) -> Option<AwsMqttError> {
    if n == 5120 {
        Some(AwsMqttError::MqttInvalidReservedBits)
    } else if n == 5121 {
        Some(AwsMqttError::BufferTooBig)
    } else if n == 5122 {
        Some(AwsMqttError::InvalidRemainingLength)
    } else if n == 5123 {
        Some(AwsMqttError::UnsupportedProtocolName)
    } else if n == 5124 {
        Some(AwsMqttError::UnsupportedProtocolLevel)
    } else if n == 5125 {
        Some(AwsMqttError::InvalidCredentials)
    } else if n == 5126 {
        Some(AwsMqttError::InvalidQos)
    } else if n == 5127 {
        Some(AwsMqttError::InvalidPacketType)
    } else if n == 5128 {
        Some(AwsMqttError::InvalidTopic)
    } else if n == 5129 {
        Some(AwsMqttError::Timeout)
    } else if n == 5130 {
        Some(AwsMqttError::ProtocolError)
    } else if n == 5131 {
        Some(AwsMqttError::NotConnected)
    } else if n == 5132 {
        Some(AwsMqttError::AlreadyConnected)
    } else if n == 5133 {
        Some(AwsMqttError::BuiltWithoutWebsockets)
    } else if n == 5134 {
        Some(AwsMqttError::UnexpectedHangup)
    } else if n == 5135 {
        Some(AwsMqttError::ConnectionShutdown)
    } else if n == 5136 {
        Some(AwsMqttError::ConnectionDestroyed)
    } else if n == 5137 {
        Some(AwsMqttError::ConnectionDisconnecting)
    } else if n == 5138 {
        Some(AwsMqttError::CancelledForCleanSession)
    } else if n == 5139 {
        Some(AwsMqttError::QueueFull)
    } else if n == 5140 {
        Some(AwsMqttError::ClientOptionsValidation)
    } else if n == 5141 {
        Some(AwsMqttError::ConnectOptionsValidation)
    } else if n == 5142 {
        Some(AwsMqttError::DisconnectOptionsValidation)
    } else if n == 5143 {
        Some(AwsMqttError::PublishOptionsValidation)
    } else if n == 5144 {
        Some(AwsMqttError::SubscribeOptionsValidation)
    } else if n == 5145 {
        Some(AwsMqttError::UnsubscribeOptionsValidation)
    } else if n == 5146 {
        Some(AwsMqttError::UserPropertyValidation)
    } else if n == 5147 {
        Some(AwsMqttError::PacketValidation)
    } else if n == 5148 {
        Some(AwsMqttError::EncodeFailure)
    } else if n == 5149 {
        Some(AwsMqttError::DecodeProtocolError)
    } else if n == 5150 {
        Some(AwsMqttError::ConnackConnectionRefused)
    } else if n == 5151 {
        Some(AwsMqttError::ConnackTimeout)
    } else if n == 5152 {
        Some(AwsMqttError::PingResponseTimeout)
    } else if n == 5153 {
        Some(AwsMqttError::UserRequestedStop)
    } else if n == 5154 {
        Some(AwsMqttError::DisconnectReceived)
    } else if n == 5155 {
        Some(AwsMqttError::ClientTerminated)
    } else if n == 5156 {
        Some(AwsMqttError::OperationFailedDueToOfflineQueuePolicy)
    } else if n == 5157 {
        Some(AwsMqttError::EncodeSizeUnsupportedPacketType)
    } else if n == 5158 {
        Some(AwsMqttError::OperationProcessingFailure)
    } else if n == 5159 {
        Some(AwsMqttError::InvalidInboundTopicAlias)
    } else if n == 5160 {
        Some(AwsMqttError::InvalidOutboundTopicAlias)
    } else if n == 5161 {
        Some(AwsMqttError::InvalidUtf8String)
    } else if n == 5162 {
        Some(AwsMqttError::ConnectionResetForAdapterConnect)
    } else if n == 5163 {
        Some(AwsMqttError::ConnectionResubscribeNoTopics)
    } else if n == 6143 {
        Some(AwsMqttError::EndMqttRange)
    } else {
        None
    }
}

impl AwsMqttError {
    /// The numeric code of the value.
    pub fn code(&self) -> (r: i32)
        ensures
            r == mqtt_error_code(*self),
    {
        match self {
            AwsMqttError::MqttInvalidReservedBits => 5120,
            AwsMqttError::BufferTooBig => 5121,
            AwsMqttError::InvalidRemainingLength => 5122,
            AwsMqttError::UnsupportedProtocolName => 5123,
            AwsMqttError::UnsupportedProtocolLevel => 5124,
            AwsMqttError::InvalidCredentials => 5125,
            AwsMqttError::InvalidQos => 5126,
            AwsMqttError::InvalidPacketType => 5127,
            AwsMqttError::InvalidTopic => 5128,
            AwsMqttError::Timeout => 5129,
            AwsMqttError::ProtocolError => 5130,
            AwsMqttError::NotConnected => 5131,
            AwsMqttError::AlreadyConnected => 5132,
            AwsMqttError::BuiltWithoutWebsockets => 5133,
            AwsMqttError::UnexpectedHangup => 5134,
            AwsMqttError::ConnectionShutdown => 5135,
            AwsMqttError::ConnectionDestroyed => 5136,
            AwsMqttError::ConnectionDisconnecting => 5137,
            AwsMqttError::CancelledForCleanSession => 5138,
            AwsMqttError::QueueFull => 5139,
            AwsMqttError::ClientOptionsValidation => 5140,
            AwsMqttError::ConnectOptionsValidation => 5141,
            AwsMqttError::DisconnectOptionsValidation => 5142,
            AwsMqttError::PublishOptionsValidation => 5143,
            AwsMqttError::SubscribeOptionsValidation => 5144,
            AwsMqttError::UnsubscribeOptionsValidation => 5145,
            AwsMqttError::UserPropertyValidation => 5146,
            AwsMqttError::PacketValidation => 5147,
            AwsMqttError::EncodeFailure => 5148,
            AwsMqttError::DecodeProtocolError => 5149,
            AwsMqttError::ConnackConnectionRefused => 5150,
            AwsMqttError::ConnackTimeout => 5151,
            AwsMqttError::PingResponseTimeout => 5152,
            AwsMqttError::UserRequestedStop => 5153,
            AwsMqttError::DisconnectReceived => 5154,
            AwsMqttError::ClientTerminated => 5155,
            AwsMqttError::OperationFailedDueToOfflineQueuePolicy => 5156,
            AwsMqttError::EncodeSizeUnsupportedPacketType => 5157,
            AwsMqttError::OperationProcessingFailure => 5158,
            AwsMqttError::InvalidInboundTopicAlias => 5159,
            AwsMqttError::InvalidOutboundTopicAlias => 5160,
            AwsMqttError::InvalidUtf8String => 5161,
            AwsMqttError::ConnectionResetForAdapterConnect => 5162,
            AwsMqttError::ConnectionResubscribeNoTopics => 5163,
            AwsMqttError::EndMqttRange => 6143,
        }
    }

    /// The value with the given numeric code; any other number is an
    /// unrecognized value of this enum.
    pub fn try_from_i32(value: i32) -> (r: Result<AwsMqttError, Error>)
        ensures
            r == enum_result(mqtt_error_of_code(value as int), value as isize, AWSMQTTERROR_NAME),
    {
        if value == 5120 {
            Ok(AwsMqttError::MqttInvalidReservedBits)
        } else if value == 5121 {
            Ok(AwsMqttError::BufferTooBig)
        } else if value == 5122 {
            Ok(AwsMqttError::InvalidRemainingLength)
        } else if value == 5123 {
            Ok(AwsMqttError::UnsupportedProtocolName)
        } else if value == 5124 {
            Ok(AwsMqttError::UnsupportedProtocolLevel)
        } else if value == 5125 {
            Ok(AwsMqttError::InvalidCredentials)
        } else if value == 5126 {
            Ok(AwsMqttError::InvalidQos)
        } else if value == 5127 {
            Ok(AwsMqttError::InvalidPacketType)
        } else if value == 5128 {
            Ok(AwsMqttError::InvalidTopic)
        } else if value == 5129 {
            Ok(AwsMqttError::Timeout)
        } else if value == 5130 {
            Ok(AwsMqttError::ProtocolError)
        } else if value == 5131 {
            Ok(AwsMqttError::NotConnected)
        } else if value == 5132 {
            Ok(AwsMqttError::AlreadyConnected)
        } else if value == 5133 {
            Ok(AwsMqttError::BuiltWithoutWebsockets)
        } else if value == 5134 {
            Ok(AwsMqttError::UnexpectedHangup)
        } else if value == 5135 {
            Ok(AwsMqttError::ConnectionShutdown)
        } else if value == 5136 {
            Ok(AwsMqttError::ConnectionDestroyed)
        } else if value == 5137 {
            Ok(AwsMqttError::ConnectionDisconnecting)
        } else if value == 5138 {
            Ok(AwsMqttError::CancelledForCleanSession)
        } else if value == 5139 {
            Ok(AwsMqttError::QueueFull)
        } else if value == 5140 {
            Ok(AwsMqttError::ClientOptionsValidation)
        } else if value == 5141 {
            Ok(AwsMqttError::ConnectOptionsValidation)
        } else if value == 5142 {
            Ok(AwsMqttError::DisconnectOptionsValidation)
        } else if value == 5143 {
            Ok(AwsMqttError::PublishOptionsValidation)
        } else if value == 5144 {
            Ok(AwsMqttError::SubscribeOptionsValidation)
        } else if value == 5145 {
            Ok(AwsMqttError::UnsubscribeOptionsValidation)
        } else if value == 5146 {
            Ok(AwsMqttError::UserPropertyValidation)
        } else if value == 5147 {
            Ok(AwsMqttError::PacketValidation)
        } else if value == 5148 {
            Ok(AwsMqttError::EncodeFailure)
        } else if value == 5149 {
            Ok(AwsMqttError::DecodeProtocolError)
        } else if value == 5150 {
            Ok(AwsMqttError::ConnackConnectionRefused)
        } else if value == 5151 {
            Ok(AwsMqttError::ConnackTimeout)
        } else if value == 5152 {
            Ok(AwsMqttError::PingResponseTimeout)
        } else if value == 5153 {
            Ok(AwsMqttError::UserRequestedStop)
        } else if value == 5154 {
            Ok(AwsMqttError::DisconnectReceived)
        } else if value == 5155 {
            Ok(AwsMqttError::ClientTerminated)
        } else if value == 5156 {
            Ok(AwsMqttError::OperationFailedDueToOfflineQueuePolicy)
        } else if value == 5157 {
            Ok(AwsMqttError::EncodeSizeUnsupportedPacketType)
        } else if value == 5158 {
            Ok(AwsMqttError::OperationProcessingFailure)
        } else if value == 5159 {
            Ok(AwsMqttError::InvalidInboundTopicAlias)
        } else if value == 5160 {
            Ok(AwsMqttError::InvalidOutboundTopicAlias)
        } else if value == 5161 {
            Ok(AwsMqttError::InvalidUtf8String)
        } else if value == 5162 {
            Ok(AwsMqttError::ConnectionResetForAdapterConnect)
        } else if value == 5163 {
            Ok(AwsMqttError::ConnectionResubscribeNoTopics)
        } else if value == 6143 {
            Ok(AwsMqttError::EndMqttRange)
        } else {
            Err(Error::UnrecognizedEnumValue(value as isize, AWSMQTTERROR_NAME))
        }
    }

    /// As `try_from_i32`, for an `isize` code.
    pub fn try_from_isize(value: isize) -> (r: Result<AwsMqttError, Error>)
        ensures
            r == enum_result(mqtt_error_of_code(value as int), value, AWSMQTTERROR_NAME),
    {
        if i32::MIN as isize <= value && value <= i32::MAX as isize {
            Self::try_from_i32(value as i32)
        } else {
            Err(Error::UnrecognizedEnumValue(value, AWSMQTTERROR_NAME))
        }
    }

    /// As `try_from_i32`, for a `u32` code.
    pub fn try_from_u32(value: u32) -> (r: Result<AwsMqttError, Error>)
        ensures
            r == enum_result(mqtt_error_of_code(value as int), value as isize, AWSMQTTERROR_NAME),
    {
        if value <= i32::MAX as u32 {
            Self::try_from_i32(value as i32)
        } else {
            Err(Error::UnrecognizedEnumValue(value as isize, AWSMQTTERROR_NAME))
        }
    }
}

/// Reading back the code of a value gives the value, and a code that
/// names a value is that value's code.
pub proof fn lemma_mqtt_error_code_round_trip(v: AwsMqttError, n: int)
    ensures
        mqtt_error_of_code(mqtt_error_code(v)) == Some(v),
        mqtt_error_of_code(n) == Some(v) ==> mqtt_error_code(v) == n,
{
}

/// Return codes of an MQTT CONNACK.
#[derive(Clone, Copy, Debug, PartialEq, Eq, Structural)]
pub enum AwsMqttConnectReturnCode {
    Accepted,
    UnacceptableProtocolVersion,
    IdentifierRejected,
    ServerUnavailable,
    BadUsernameOrPassword,
    NotAuthorized,
}

/// The numeric code of each `AwsMqttConnectReturnCode` value.
pub open spec fn return_code_code(v: AwsMqttConnectReturnCode) -> int {
    match v {
        AwsMqttConnectReturnCode::Accepted => 0,
        AwsMqttConnectReturnCode::UnacceptableProtocolVersion => 1,
        AwsMqttConnectReturnCode::IdentifierRejected => 2,
        AwsMqttConnectReturnCode::ServerUnavailable => 3,
        AwsMqttConnectReturnCode::BadUsernameOrPassword => 4,
        AwsMqttConnectReturnCode::NotAuthorized => 5,
    }
}

/// The `AwsMqttConnectReturnCode` value with numeric code `n`, if any.
pub open spec fn return_code_of_code(n: int) -> Option<AwsMqttConnectReturnCode> {
    if n == 0 {
        Some(AwsMqttConnectReturnCode::Accepted)
    } else if n == 1 {
        Some(AwsMqttConnectReturnCode::UnacceptableProtocolVersion)
    } else if n == 2 {
        Some(AwsMqttConnectReturnCode::IdentifierRejected)
    } else if n == 3 {
        Some(AwsMqttConnectReturnCode::ServerUnavailable)
    } else if n == 4 {
        Some(AwsMqttConnectReturnCode::BadUsernameOrPassword)
    } else if n == 5 {
        Some(AwsMqttConnectReturnCode::NotAuthorized)
    } else {
        None
    }
}

impl AwsMqttConnectReturnCode {
    /// The numeric code of the value.
    pub fn code(&self) -> (r: i32)
        ensures
            r == return_code_code(*self),
    {
        match self {
            AwsMqttConnectReturnCode::Accepted => 0,
            AwsMqttConnectReturnCode::UnacceptableProtocolVersion => 1,
            AwsMqttConnectReturnCode::IdentifierRejected => 2,
            AwsMqttConnectReturnCode::ServerUnavailable => 3,
            AwsMqttConnectReturnCode::BadUsernameOrPassword => 4,
            AwsMqttConnectReturnCode::NotAuthorized => 5,
        }
    }

    /// The value with the given numeric code; any other number is an
    /// unrecognized value of this enum.
    pub fn try_from_i32(value: i32) -> (r: Result<AwsMqttConnectReturnCode, Error>)
        ensures
            r == enum_result(return_code_of_code(value as int), value as isize, AWSMQTTCONNECTRETURNCODE_NAME),
    {
        if value == 0 {
            Ok(AwsMqttConnectReturnCode::Accepted)
        } else if value == 1 {
            Ok(AwsMqttConnectReturnCode::UnacceptableProtocolVersion)
        } else if value == 2 {
            Ok(AwsMqttConnectReturnCode::IdentifierRejected)
        } else if value == 3 {
            Ok(AwsMqttConnectReturnCode::ServerUnavailable)
        } else if value == 4 {
            Ok(AwsMqttConnectReturnCode::BadUsernameOrPassword)
        } else if value == 5 {
            Ok(AwsMqttConnectReturnCode::NotAuthorized)
        } else {
            Err(Error::UnrecognizedEnumValue(value as isize, AWSMQTTCONNECTRETURNCODE_NAME))
        }
    }

    /// As `try_from_i32`, for an `isize` code.
    pub fn try_from_isize(value: isize) -> (r: Result<AwsMqttConnectReturnCode, Error>)
        ensures
            r == enum_result(return_code_of_code(value as int), value, AWSMQTTCONNECTRETURNCODE_NAME),
    {
        if i32::MIN as isize <= value && value <= i32::MAX as isize {
            Self::try_from_i32(value as i32)
        } else {
            Err(Error::UnrecognizedEnumValue(value, AWSMQTTCONNECTRETURNCODE_NAME))
        }
    }

    /// As `try_from_i32`, for a `u32` code.
    pub fn try_from_u32(value: u32) -> (r: Result<AwsMqttConnectReturnCode, Error>)
        ensures
            r == enum_result(return_code_of_code(value as int), value as isize, AWSMQTTCONNECTRETURNCODE_NAME),
    {
        if value <= i32::MAX as u32 {
            Self::try_from_i32(value as i32)
        } else {
            Err(Error::UnrecognizedEnumValue(value as isize, AWSMQTTCONNECTRETURNCODE_NAME))
        }
    }
}

/// Reading back the code of a value gives the value, and a code that
/// names a value is that value's code.
pub proof fn lemma_return_code_round_trip(v: AwsMqttConnectReturnCode, n: int)
    ensures
        return_code_of_code(return_code_code(v)) == Some(v),
        return_code_of_code(n) == Some(v) ==> return_code_code(v) == n,
{
}

} // verus!
