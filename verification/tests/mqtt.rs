use beluga::mqtt::client::{
    join_topics, publish_request, record_subscriptions, subscribe_multiple_request, subscribe_request,
    unsubscribe_request, Notifiers,
};
use beluga::mqtt::codes::{AwsMqttConnectReturnCode, AwsMqttError, Qos};
use beluga::mqtt::config::{c_string, ConfigBuilder};
use beluga::mqtt::error::Error;
use beluga::mqtt::status::{
    check_packet_id, creation_result, is_connected, message_result, next_status, on_event, operation_result,
    ClientStatus, ConnectionEvent, EventOutcome,
};
use beluga::mqtt::subscription::{route_message, Subscriber, Subscriptions};
use std::time::Duration;
use ClientStatus::{Closed, Connected, Interrupted, Unknown};

#[test]
fn qos_codes() {
    assert_eq!(Qos::AtMostOnce.code(), 0);
    assert_eq!(Qos::AtLeastOnce.code(), 1);
    assert_eq!(Qos::ExactlyOnce.code(), 2);
    assert_eq!(Qos::QosFailure.code(), 128);
    assert!(matches!(Qos::try_from_i32(2), Ok(Qos::ExactlyOnce)));
    assert!(matches!(Qos::try_from_u32(128), Ok(Qos::QosFailure)));
    assert!(matches!(Qos::try_from_isize(1), Ok(Qos::AtLeastOnce)));
    assert!(matches!(Qos::try_from_i32(3), Err(Error::UnrecognizedEnumValue(3, "Qos"))));
    assert!(matches!(Qos::try_from_u32(u32::MAX), Err(Error::UnrecognizedEnumValue(4294967295, "Qos"))));
    assert!(matches!(Qos::try_from_isize(-1), Err(Error::UnrecognizedEnumValue(-1, "Qos"))));
}

#[test]
fn mqtt_error_codes() {
    assert_eq!(AwsMqttError::MqttInvalidReservedBits.code(), 5120);
    assert_eq!(AwsMqttError::ProtocolError.code(), 5130);
    assert_eq!(AwsMqttError::ConnectionResubscribeNoTopics.code(), 5163);
    assert_eq!(AwsMqttError::EndMqttRange.code(), 6143);
    assert!(matches!(AwsMqttError::try_from_i32(5130), Ok(AwsMqttError::ProtocolError)));
    assert!(matches!(AwsMqttError::try_from_i32(6143), Ok(AwsMqttError::EndMqttRange)));
    assert!(matches!(
        AwsMqttError::try_from_i32(5164),
        Err(Error::UnrecognizedEnumValue(5164, "AwsMqttError"))
    ));
    assert!(matches!(AwsMqttError::try_from_i32(0), Err(Error::UnrecognizedEnumValue(0, _))));
}

#[test]
fn connect_return_codes() {
    assert_eq!(AwsMqttConnectReturnCode::Accepted.code(), 0);
    assert_eq!(AwsMqttConnectReturnCode::NotAuthorized.code(), 5);
    assert!(matches!(
        AwsMqttConnectReturnCode::try_from_i32(4),
        Ok(AwsMqttConnectReturnCode::BadUsernameOrPassword)
    ));
    assert!(matches!(
        AwsMqttConnectReturnCode::try_from_u32(6),
        Err(Error::UnrecognizedEnumValue(6, "AwsMqttConnectReturnCode"))
    ));
}

#[test]
fn c_string_refuses_nul() {
    assert_eq!(c_string("topic").unwrap(), "topic");
    assert!(matches!(c_string("to\0pic\0"), Err(Error::StringConversion(2))));
}

#[test]
fn config_defaults() {
    let config = ConfigBuilder::new()
        .with_endpoint("example.com")
        .unwrap()
        .with_client_id("thing")
        .unwrap()
        .build()
        .unwrap();
    assert_eq!(config.endpoint, "example.com");
    assert_eq!(config.client_id, "thing");
    assert!(!config.clean_session);
    assert_eq!(config.keep_alive_s, 1000);
    assert_eq!(config.ping_timeout_ms, 500);
    assert_eq!(config.port, 0);
    assert!(config.cert.is_empty());
    assert!(config.private_key.is_empty());
    assert_eq!(config.username, "");
    assert_eq!(config.password, "");
}

#[test]
fn config_settings() {
    let config = ConfigBuilder::new()
        .with_endpoint("e")
        .unwrap()
        .with_client_id("c")
        .unwrap()
        .with_clean_session()
        .with_keep_alive(Duration::from_secs(30))
        .with_ping_timeout(Duration::from_millis(250))
        .with_cert(b"cert".to_vec())
        .with_private_key(b"key".to_vec())
        .with_port(8883)
        .with_username("user")
        .unwrap()
        .with_password("secret")
        .unwrap()
        .build()
        .unwrap();
    assert!(config.clean_session);
    assert_eq!(config.keep_alive_s, 30);
    assert_eq!(config.ping_timeout_ms, 250);
    assert_eq!(config.cert, b"cert");
    assert_eq!(config.private_key, b"key");
    assert_eq!(config.port, 8883);
    assert_eq!(config.username, "user");
    assert_eq!(config.password, "secret");
}

#[test]
fn config_casts_wrap() {
    let b = ConfigBuilder::new().with_keep_alive_secs(65536 + 7).with_ping_timeout_millis(4294967296 + 9);
    assert_eq!(b.keep_alive_s, Some(7));
    assert_eq!(b.ping_timeout_ms, Some(9));
}

#[test]
fn config_requires_endpoint_then_client_id() {
    assert!(matches!(ConfigBuilder::new().build(), Err(Error::MissEndpoint)));
    let b = ConfigBuilder::new().with_client_id("c").unwrap();
    assert!(matches!(b.build(), Err(Error::MissEndpoint)));
    let b = ConfigBuilder::new().with_endpoint("e").unwrap();
    assert!(matches!(b.build(), Err(Error::MissClientId)));
    assert!(matches!(ConfigBuilder::new().with_endpoint("e\0"), Err(Error::StringConversion(1))));
    assert!(matches!(ConfigBuilder::new().with_password("\0"), Err(Error::StringConversion(0))));
}

#[test]
fn connection_events() {
    let accepted = AwsMqttConnectReturnCode::Accepted;
    let refused = AwsMqttConnectReturnCode::NotAuthorized;
    let completed = |error_code, return_code| ConnectionEvent::Completed {
        error_code,
        return_code,
        session_present: false,
    };
    assert_eq!(next_status(Unknown, completed(0, accepted)), Connected);
    assert_eq!(next_status(Unknown, completed(0, refused)), Connected);
    assert_eq!(next_status(Unknown, completed(5, accepted)), Connected);
    assert_eq!(next_status(Unknown, completed(5, refused)), Closed);
    assert_eq!(next_status(Connected, ConnectionEvent::Closed), Closed);
    assert_eq!(next_status(Connected, ConnectionEvent::Interrupted { error_code: 1 }), Interrupted);
    let resumed = |return_code| ConnectionEvent::Resumed { return_code, session_present: true };
    assert_eq!(next_status(Interrupted, resumed(accepted)), Connected);
    assert_eq!(next_status(Interrupted, resumed(refused)), Interrupted);
    assert!(is_connected(Connected));
    assert!(!is_connected(Interrupted));
    assert_eq!(ClientStatus::default_status(), Unknown);
}

#[test]
fn operation_results() {
    assert!(creation_result(Some(ClientStatus::Connected)).is_ok());
    assert!(matches!(creation_result(Some(ClientStatus::Closed)), Err(Error::MqttClientCreate)));
    assert!(matches!(creation_result(None), Err(Error::MqttClientCreate)));
    assert!(operation_result(Some(0)).is_ok());
    assert!(matches!(
        operation_result(Some(5129)),
        Err(Error::AwsMqttError(AwsMqttError::Timeout))
    ));
    assert!(matches!(operation_result(Some(17)), Err(Error::AwsUnknownMqttError(17))));
    assert!(matches!(operation_result(None), Err(Error::AwsReceiveResponse)));
    assert!(matches!(check_packet_id(7), Ok(7)));
    assert!(matches!(
        check_packet_id(0),
        Err(Error::AwsMqttError(AwsMqttError::ProtocolError))
    ));
    assert!(matches!(message_result(Some(3)), Ok(3)));
    assert!(matches!(message_result::<u8>(None), Err(Error::AwsReceiveMessage)));
}

#[test]
fn subscriber_topics() {
    let s = Subscriber::new(&["a/b", "c"], 1u8);
    assert!(s.contains("a/b"));
    assert!(s.contains("c"));
    assert!(!s.contains("a"));
}

#[test]
fn message_routing() {
    let subs = vec![
        Subscriber::new(&["t"], 1u8),
        Subscriber::new(&["u"], 2u8),
        Subscriber::new(&["u", "t"], 3u8),
        Subscriber::new(&["v"], 4u8),
    ];
    let closed = vec![false, false, false, true];
    let (deliver, keep) = route_message(subs, &closed, "t");
    assert_eq!(deliver, vec![1, 3]);
    assert_eq!(keep.len(), 1);
    assert_eq!(keep[0].sender, 2);
}

#[test]
fn subscriptions_set() {
    let mut s = Subscriptions::new();
    assert!(!s.contains("a"));
    assert!(s.insert("a"));
    assert!(!s.insert("a"));
    assert!(s.contains("a"));
    assert_eq!(s.missing(&["a", "b", "b", "c"]), vec!["b".to_string(), "c".to_string()]);
    assert!(s.remove("a"));
    assert!(!s.remove("a"));
    assert!(!s.contains("a"));
}

#[test]
fn subscribe_then_unsubscribe_restores() {
    let mut s = Subscriptions::new();
    s.insert("x");
    assert!(s.insert("y"));
    assert!(s.remove("y"));
    assert!(s.contains("x"));
    assert!(!s.contains("y"));
}

#[test]
fn join_topics_with_commas() {
    assert_eq!(join_topics(&[]), "");
    assert_eq!(join_topics(&["a"]), "a");
    assert_eq!(join_topics(&["a", "b/c", ""]), "a,b/c,");
}

#[test]
fn publish_requests() {
    assert!(matches!(publish_request(ClientStatus::Closed, "t"), Err(Error::NotConnected)));
    match publish_request(ClientStatus::Connected, "t\0") {
        Err(Error::InvalidTopic(t)) => assert_eq!(t, "t\0"),
        other => panic!("unexpected {other:?}"),
    }
    assert_eq!(publish_request(ClientStatus::Connected, "t").unwrap(), "t");
}

#[test]
fn subscribe_requests() {
    let mut s = Subscriptions::new();
    s.insert("old");
    assert!(matches!(subscribe_request(ClientStatus::Unknown, &s, "new"), Err(Error::NotConnected)));
    assert!(matches!(subscribe_request(ClientStatus::Connected, &s, "n\0"), Err(Error::InvalidTopic(_))));
    assert_eq!(subscribe_request(ClientStatus::Connected, &s, "old").unwrap(), None);
    assert_eq!(subscribe_request(ClientStatus::Connected, &s, "new").unwrap(), Some("new".to_string()));
}

#[test]
fn subscribe_multiple_requests() {
    let mut s = Subscriptions::new();
    s.insert("a");
    s.insert("b\0");
    assert!(matches!(
        subscribe_multiple_request(ClientStatus::Interrupted, &s, &["a"]),
        Err(Error::NotConnected)
    ));
    let missing = subscribe_multiple_request(ClientStatus::Connected, &s, &["a", "c", "c", "b\0"]).unwrap();
    assert_eq!(missing, vec!["c".to_string()]);
    match subscribe_multiple_request(ClientStatus::Connected, &s, &["a", "d\0", "e"]) {
        Err(Error::InvalidTopic(t)) => assert_eq!(t, "a,d\0,e"),
        other => panic!("unexpected {other:?}"),
    }
    assert!(subscribe_multiple_request(ClientStatus::Connected, &s, &["a"]).unwrap().is_empty());
}

#[test]
fn recording_subscriptions() {
    let mut s = Subscriptions::new();
    assert!(matches!(
        record_subscriptions(&mut s, vec!["a".to_string()], 0),
        Err(Error::AwsMqttError(AwsMqttError::ProtocolError))
    ));
    assert!(!s.contains("a"));
    assert!(record_subscriptions(&mut s, vec!["a".to_string(), "b".to_string()], 3).is_ok());
    assert!(s.contains("a"));
    assert!(s.contains("b"));
}

#[test]
fn unsubscribe_requests() {
    let mut s = Subscriptions::new();
    s.insert("a");
    assert!(matches!(unsubscribe_request(ClientStatus::Closed, &mut s, "a"), Err(Error::NotConnected)));
    assert!(s.contains("a"));
    assert_eq!(unsubscribe_request(ClientStatus::Connected, &mut s, "a").unwrap(), Some("a".to_string()));
    assert!(!s.contains("a"));
    assert_eq!(unsubscribe_request(ClientStatus::Connected, &mut s, "a").unwrap(), None);
    assert!(matches!(
        unsubscribe_request(ClientStatus::Connected, &mut s, "\0"),
        Err(Error::InvalidTopic(_))
    ));
}

#[test]
fn notifiers_answer_once() {
    let mut n = Notifiers::new();
    n.register(4, "four");
    n.register(5, "five");
    assert_eq!(n.take(4), Some("four"));
    assert_eq!(n.take(4), None);
    assert_eq!(n.take(5), Some("five"));
    n.register(6, "a");
    n.register(6, "b");
    assert_eq!(n.take(6), Some("b"));
}

#[test]
fn subscribing_to_several_topics_covers_them_all() {
    let mut s = Subscriptions::new();
    s.insert("a");
    let topics = ["a", "b", "c", "b"];
    let missing = subscribe_multiple_request(ClientStatus::Connected, &s, &topics).unwrap();
    assert!(record_subscriptions(&mut s, missing, 11).is_ok());
    for t in topics {
        assert!(s.contains(t));
    }
}

#[test]
fn only_first_completion_is_reported() {
    let failed = ConnectionEvent::Completed {
        error_code: 5,
        return_code: AwsMqttConnectReturnCode::NotAuthorized,
        session_present: false,
    };
    let ok = ConnectionEvent::Completed {
        error_code: 0,
        return_code: AwsMqttConnectReturnCode::Accepted,
        session_present: true,
    };
    // Events before the first completion report nothing.
    let o = on_event(Unknown, true, ConnectionEvent::Interrupted { error_code: 1 });
    assert_eq!(o, EventOutcome { status: Interrupted, report: None });
    // The first completion reports the status it leads to.
    let o = on_event(o.status, true, failed);
    assert_eq!(o, EventOutcome { status: Closed, report: Some(Closed) });
    // Once reported, nobody waits: later completions only change the status.
    let o = on_event(o.status, false, ok);
    assert_eq!(o, EventOutcome { status: Connected, report: None });
    assert_eq!(on_event(Connected, true, ConnectionEvent::Closed), EventOutcome { status: Closed, report: None });
}

#[test]
fn config_durations_wrap() {
    let b = ConfigBuilder::new()
        .with_keep_alive(Duration::from_millis(65_543_900))
        .with_ping_timeout(Duration::from_micros(4_294_967_305_700));
    assert_eq!(b.keep_alive_s, Some(7));
    assert_eq!(b.ping_timeout_ms, Some(9));
}
