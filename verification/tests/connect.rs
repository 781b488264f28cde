use beluga::connect::{ConnectionOptionsBuilder, SocketOptionsBuilder, AWS_SOCKET_IPV4, AWS_SOCKET_STREAM};
use std::time::Duration;

#[test]
fn socket_option_defaults() {
    let options = SocketOptionsBuilder::new().build();
    assert_eq!(options.socket_type, AWS_SOCKET_STREAM);
    assert_eq!(options.domain, AWS_SOCKET_IPV4);
    assert_eq!(options.connect_timeout_ms, u32::MAX);
    assert_eq!(options.keep_alive_interval_sec, 0);
    assert_eq!(options.keep_alive_timeout_sec, 0);
    assert_eq!(options.keep_alive_max_failed_probes, 0);
    assert!(!options.keepalive);
}

#[test]
fn connection_options() {
    let socket = SocketOptionsBuilder::new().build();
    let mut b = ConnectionOptionsBuilder::new();
    b.host_name("broker")
        .port(8883)
        .client_id("thing")
        .keep_alive_time(Duration::from_secs(60))
        .ping_timeout(Duration::from_millis(3000))
        .protocol_operation_timeout(Duration::from_millis(10_000))
        .clean_session(true)
        .socket_options(&socket);
    assert_eq!(b.host_name, "broker");
    assert_eq!(b.port, 8883);
    assert_eq!(b.client_id, "thing");
    assert_eq!(b.keep_alive_time_secs, 60);
    assert_eq!(b.ping_timeout_ms, 3000);
    assert_eq!(b.protocol_operation_timeout_ms, 10_000);
    assert!(b.clean_session);
    assert_eq!(b.socket_options, Some(socket));
}

#[test]
fn connection_timeouts_saturate() {
    let mut b = ConnectionOptionsBuilder::new();
    b.keep_alive_time_secs(70_000)
        .ping_timeout_millis(u128::MAX)
        .protocol_operation_timeout_millis(5_000_000_000);
    assert_eq!(b.keep_alive_time_secs, u16::MAX);
    assert_eq!(b.ping_timeout_ms, u32::MAX);
    assert_eq!(b.protocol_operation_timeout_ms, u32::MAX);
    b.keep_alive_time(Duration::from_secs(100_000));
    assert_eq!(b.keep_alive_time_secs, u16::MAX);
}

#[test]
fn connection_option_defaults() {
    let b = ConnectionOptionsBuilder::new();
    assert_eq!(b.host_name, "");
    assert_eq!(b.port, 0);
    assert_eq!(b.keep_alive_time_secs, 0);
    assert!(b.socket_options.is_none());
}
