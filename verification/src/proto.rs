//! The secure tunneling protocol message model.
use vstd::prelude::*;
use crate::text::str_equal;
use vstd::string::StringExecFns;

verus! {

/// Kind of a secure tunneling protocol message.
#[derive(Clone, Copy, Debug, PartialEq, Eq, Structural)]
pub enum Type {
    Unknown,
    Data,
    StreamStart,
    StreamReset,
    SessionReset,
    ServiceIds,
    ConnectionStart,
    ConnectionReset,
}

/// The wire number of each message type.
pub open spec fn type_number(t: Type) -> i32 {
    match t {
        Type::Unknown => 0,
        Type::Data => 1,
        Type::StreamStart => 2,
        Type::StreamReset => 3,
        Type::SessionReset => 4,
        Type::ServiceIds => 5,
        Type::ConnectionStart => 6,
        Type::ConnectionReset => 7,
    }
}

/// The protobuf field name of each message type.
pub open spec fn field_name_of(t: Type) -> Seq<char> {
    match t {
        Type::Unknown => "UNKNOWN"@,
        Type::Data => "DATA"@,
        Type::StreamStart => "STREAM_START"@,
        Type::StreamReset => "STREAM_RESET"@,
        Type::SessionReset => "SESSION_RESET"@,
        Type::ServiceIds => "SERVICE_IDS"@,
        Type::ConnectionStart => "CONNECTION_START"@,
        Type::ConnectionReset => "CONNECTION_RESET"@,
    }
}

/// The message type whose field name is `s`, if any.
pub open spec fn type_of_field_name(s: Seq<char>) -> Option<Type> {
    if s == "UNKNOWN"@ {
        Some(Type::Unknown)
    } else if s == "DATA"@ {
        Some(Type::Data)
    } else if s == "STREAM_START"@ {
        Some(Type::StreamStart)
    } else if s == "STREAM_RESET"@ {
        Some(Type::StreamReset)
    } else if s == "SESSION_RESET"@ {
        Some(Type::SessionReset)
    } else if s == "SERVICE_IDS"@ {
        Some(Type::ServiceIds)
    } else if s == "CONNECTION_START"@ {
        Some(Type::ConnectionStart)
    } else if s == "CONNECTION_RESET"@ {
        Some(Type::ConnectionReset)
    } else {
        None
    }
}

/// The message type with wire number `n`, if any.
pub open spec fn type_of_number(n: i32) -> Option<Type> {
    if 0 <= n <= 7 {
        Some(
            if n == 0 {
                Type::Unknown
            } else if n == 1 {
                Type::Data
            } else if n == 2 {
                Type::StreamStart
            } else if n == 3 {
                Type::StreamReset
            } else if n == 4 {
                Type::SessionReset
            } else if n == 5 {
                Type::ServiceIds
            } else if n == 6 {
                Type::ConnectionStart
            } else {
                Type::ConnectionReset
            },
        )
    } else {
        None
    }
}

/// Reading back the name of a message type gives that type: the names are
/// stable identifiers of the types.
pub proof fn lemma_field_name_round_trip(t: Type)
    ensures
        type_of_field_name(field_name_of(t)) == Some(t),
{
    reveal_strlit("UNKNOWN");
    reveal_strlit("DATA");
    reveal_strlit("STREAM_START");
    reveal_strlit("STREAM_RESET");
    reveal_strlit("SESSION_RESET");
    reveal_strlit("SERVICE_IDS");
    reveal_strlit("CONNECTION_START");
    reveal_strlit("CONNECTION_RESET");
    assert("UNKNOWN"@.len() == 7);
    assert("DATA"@.len() == 4);
    assert("STREAM_START"@.len() == 12);
    assert("STREAM_RESET"@.len() == 12);
    assert("SESSION_RESET"@.len() == 13);
    assert("SERVICE_IDS"@.len() == 11);
    assert("CONNECTION_START"@.len() == 16);
    assert("CONNECTION_RESET"@.len() == 16);
    assert("STREAM_RESET"@[7] != "STREAM_START"@[7]);
    assert("CONNECTION_RESET"@[11] != "CONNECTION_START"@[11]);
}

/// Reading back the wire number of a message type gives that type, and a
/// number that names a type is that type's number.
pub proof fn lemma_number_round_trip(t: Type, n: i32)
    ensures
        type_of_number(type_number(t)) == Some(t),
        type_of_number(n) == Some(t) ==> type_number(t) == n,
{
}

impl Type {
    /// The wire number of the type.
    pub fn number(&self) -> (r: i32)
        ensures
            r == type_number(*self),
    {
        match self {
            Type::Unknown => 0,
            Type::Data => 1,
            Type::StreamStart => 2,
            Type::StreamReset => 3,
            Type::SessionReset => 4,
            Type::ServiceIds => 5,
            Type::ConnectionStart => 6,
            Type::ConnectionReset => 7,
        }
    }

    /// The type with the given wire number, if there is one.
    pub fn from_number(n: i32) -> (r: Option<Type>)
        ensures
            r == type_of_number(n),
    {
        if n == 0 {
            Some(Type::Unknown)
        } else if n == 1 {
            Some(Type::Data)
        } else if n == 2 {
            Some(Type::StreamStart)
        } else if n == 3 {
            Some(Type::StreamReset)
        } else if n == 4 {
            Some(Type::SessionReset)
        } else if n == 5 {
            Some(Type::ServiceIds)
        } else if n == 6 {
            Some(Type::ConnectionStart)
        } else if n == 7 {
            Some(Type::ConnectionReset)
        } else {
            None
        }
    }

    /// String value of the enum field names used in the ProtoBuf definition.
    pub fn as_str_name(&self) -> (r: &'static str)
        ensures
            r@ == field_name_of(*self),
    {
        match self {
            Type::Unknown => "UNKNOWN",
            Type::Data => "DATA",
            Type::StreamStart => "STREAM_START",
            Type::StreamReset => "STREAM_RESET",
            Type::SessionReset => "SESSION_RESET",
            Type::ServiceIds => "SERVICE_IDS",
            Type::ConnectionStart => "CONNECTION_START",
            Type::ConnectionReset => "CONNECTION_RESET",
        }
    }

    /// Creates an enum from field names used in the ProtoBuf definition.
    pub fn from_str_name(value: &str) -> (r: Option<Type>)
        ensures
            r == type_of_field_name(value@),
    {
        if str_equal(value, "UNKNOWN") {
            Some(Type::Unknown)
        } else if str_equal(value, "DATA") {
            Some(Type::Data)
        } else if str_equal(value, "STREAM_START") {
            Some(Type::StreamStart)
        } else if str_equal(value, "STREAM_RESET") {
            Some(Type::StreamReset)
        } else if str_equal(value, "SESSION_RESET") {
            Some(Type::SessionReset)
        } else if str_equal(value, "SERVICE_IDS") {
            Some(Type::ServiceIds)
        } else if str_equal(value, "CONNECTION_START") {
            Some(Type::ConnectionStart)
        } else if str_equal(value, "CONNECTION_RESET") {
            Some(Type::ConnectionReset)
        } else {
            None
        }
    }
}

/// A secure tunneling protocol message.
#[derive(Clone, Debug)]
pub struct Message {
    /// Wire number of the message type.
    pub type_number: i32,
    pub stream_id: i32,
    pub ignorable: bool,
    pub payload: Vec<u8>,
    pub service_id: String,
    pub available_service_ids: Vec<String>,
    pub connection_id: u32,
}

/// The type of a message whose type field holds `n`: an unknown number
/// reads as `Unknown`.
pub open spec fn message_type_of(n: i32) -> Type {
    match type_of_number(n) {
        Some(t) => t,
        None => Type::Unknown,
    }
}

impl Message {
    /// The message type; a type number that names no type reads as
    /// `Unknown`.
    pub fn message_type(&self) -> (r: Type)
        ensures
            r == message_type_of(self.type_number),
    {
        match Type::from_number(self.type_number) {
            Some(t) => t,
            None => Type::Unknown,
        }
    }

    /// The data message that carries bytes read from the local SSH
    /// service: stream 5, service `SSH`, connection 0.
    pub fn ssh_data(payload: Vec<u8>) -> (m: Message)
        ensures
            m.type_number == type_number(Type::Data),
            m.stream_id == 5,
            !m.ignorable,
            m.payload@ == payload@,
            m.service_id@ == "SSH"@,
            m.available_service_ids@.len() == 0,
            m.connection_id == 0,
    {
        Message {
            type_number: Type::Data.number(),
            stream_id: 5,
            ignorable: false,
            payload,
            service_id: String::from_str("SSH"),
            available_service_ids: Vec::new(),
            connection_id: 0,
        }
    }
}

/// What the destination does with a received message.
#[derive(Debug, PartialEq, Eq)]
pub enum TunnelAction {
    /// Hand the payload to the local service.
    Forward(Vec<u8>),
    /// Open the connection to the local service.
    StartStream,
    /// Nothing to do.
    Ignore,
}

/// Decides what to do with a received message: data is forwarded, a
/// stream start opens the local connection, anything else is ignored.
pub fn action_for(msg: Message) -> (r: TunnelAction)
    ensures
        message_type_of(msg.type_number) == Type::Data ==> (r matches TunnelAction::Forward(p)
            && p@ == msg.payload@),
        message_type_of(msg.type_number) == Type::StreamStart ==> r == TunnelAction::StartStream,
        message_type_of(msg.type_number) != Type::Data && message_type_of(msg.type_number)
            != Type::StreamStart ==> r == TunnelAction::Ignore,
{
    match msg.message_type() {
        Type::Data => TunnelAction::Forward(msg.payload),
        Type::StreamStart => TunnelAction::StartStream,
        _ => TunnelAction::Ignore,
    }
}

} // verus!
