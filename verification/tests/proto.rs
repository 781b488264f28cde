use beluga::proto::{action_for, Message, TunnelAction, Type};

const ALL: [Type; 8] = [
    Type::Unknown,
    Type::Data,
    Type::StreamStart,
    Type::StreamReset,
    Type::SessionReset,
    Type::ServiceIds,
    Type::ConnectionStart,
    Type::ConnectionReset,
];

#[test]
fn type_names_match_the_protocol() {
    assert_eq!(Type::Unknown.as_str_name(), "UNKNOWN");
    assert_eq!(Type::Data.as_str_name(), "DATA");
    assert_eq!(Type::StreamStart.as_str_name(), "STREAM_START");
    assert_eq!(Type::StreamReset.as_str_name(), "STREAM_RESET");
    assert_eq!(Type::SessionReset.as_str_name(), "SESSION_RESET");
    assert_eq!(Type::ServiceIds.as_str_name(), "SERVICE_IDS");
    assert_eq!(Type::ConnectionStart.as_str_name(), "CONNECTION_START");
    assert_eq!(Type::ConnectionReset.as_str_name(), "CONNECTION_RESET");
}

#[test]
fn type_name_round_trip() {
    for t in ALL {
        assert_eq!(Type::from_str_name(t.as_str_name()), Some(t));
    }
}

#[test]
fn unknown_type_name_is_none() {
    assert_eq!(Type::from_str_name("data"), None);
    assert_eq!(Type::from_str_name(""), None);
    assert_eq!(Type::from_str_name("STREAM_START "), None);
}

#[test]
fn type_numbers_match_the_protocol() {
    let numbers: Vec<i32> = ALL.iter().map(|t| t.number()).collect();
    assert_eq!(numbers, vec![0, 1, 2, 3, 4, 5, 6, 7]);
    for t in ALL {
        assert_eq!(Type::from_number(t.number()), Some(t));
    }
    assert_eq!(Type::from_number(8), None);
    assert_eq!(Type::from_number(-1), None);
}

fn message(type_number: i32, payload: &[u8]) -> Message {
    Message {
        type_number,
        stream_id: 1,
        ignorable: false,
        payload: payload.to_vec(),
        service_id: String::new(),
        available_service_ids: Vec::new(),
        connection_id: 0,
    }
}

#[test]
fn unknown_type_number_reads_as_unknown() {
    assert_eq!(message(42, b"").message_type(), Type::Unknown);
    assert_eq!(message(2, b"").message_type(), Type::StreamStart);
}

#[test]
fn ssh_data_message() {
    let m = Message::ssh_data(vec![1, 2, 3]);
    assert_eq!(m.type_number, 1);
    assert_eq!(m.message_type(), Type::Data);
    assert_eq!(m.stream_id, 5);
    assert!(!m.ignorable);
    assert_eq!(m.payload, vec![1, 2, 3]);
    assert_eq!(m.service_id, "SSH");
    assert!(m.available_service_ids.is_empty());
    assert_eq!(m.connection_id, 0);
}

#[test]
fn actions_for_received_messages() {
    assert_eq!(action_for(message(1, b"abc")), TunnelAction::Forward(b"abc".to_vec()));
    assert_eq!(action_for(message(2, b"abc")), TunnelAction::StartStream);
    assert_eq!(action_for(message(3, b"abc")), TunnelAction::Ignore);
    assert_eq!(action_for(message(99, b"abc")), TunnelAction::Ignore);
}
