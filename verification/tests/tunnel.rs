use beluga::mqtt::error::Error;
use beluga::tunnel::{
    received_message, running_sessions, send_result, started_stream, tunnel_client_result,
    tunnel_endpoint, tunnel_open_result, tunnel_uri,
};

#[test]
fn tunnel_addresses() {
    assert_eq!(tunnel_endpoint("eu-west-1"), "data.tunneling.iot.eu-west-1.amazonaws.com");
    assert_eq!(
        tunnel_uri("us-east-1"),
        "wss://data.tunneling.iot.us-east-1.amazonaws.com/tunnel?local-proxy-mode=destination"
    );
}

#[test]
fn received_messages() {
    let m = received_message(3, vec![1, 2]).unwrap();
    assert_eq!(m.connection_id, 3);
    assert_eq!(m.payload, vec![1, 2]);
    assert!(received_message(3, Vec::new()).is_none());
}

#[test]
fn stream_starts() {
    assert_eq!(started_stream(0, 9), Some(9));
    assert_eq!(started_stream(1, 9), None);
}

#[test]
fn tunnel_results() {
    assert!(tunnel_client_result(Some(0)).is_ok());
    assert!(matches!(tunnel_client_result(Some(2)), Err(Error::TunnelClientCreate)));
    assert!(matches!(tunnel_client_result(None), Err(Error::TunnelClientCreate)));
    assert!(matches!(tunnel_open_result(0, Some(4)), Ok(4)));
    assert!(matches!(tunnel_open_result(1, Some(4)), Err(Error::TunnelCreate)));
    assert!(matches!(tunnel_open_result(0, None), Err(Error::TunnelCreate)));
    assert!(send_result(0).is_ok());
    match send_result(-1) {
        Err(Error::IoError(m)) => assert_eq!(m, "couldn't send a message"),
        other => panic!("unexpected {other:?}"),
    }
}

#[test]
fn finished_sessions_are_dropped() {
    let kept = running_sessions(vec!["a", "b", "c", "d"], &vec![false, true, false, true]);
    assert_eq!(kept, vec!["a", "c"]);
    assert!(running_sessions(Vec::<u8>::new(), &Vec::new()).is_empty());
}
