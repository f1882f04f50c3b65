use vnt_app::quic::{transport_error_message, QuicTransport, TransportError};
use vnt_app::socket_protect::{
    last_connect_error, protect_fd_with, record_connect_attempt, udp_socket_plan, SocketProtector,
    UdpSocketPlan,
};

#[test]
fn quic_connects_once() {
    let mut t: QuicTransport<u32> = QuicTransport::new();
    assert_eq!(t.check_can_connect(), Ok(()));
    assert_eq!(t.streams().err(), Some(TransportError::NotConnected));
    t.connected(5);
    assert_eq!(t.check_can_connect(), Err(TransportError::AlreadyConnected));
    match t.streams() {
        Ok(s) => *s += 1,
        Err(e) => panic!("{e:?}"),
    }
    assert_eq!(t.streams().ok().copied(), Some(6));
    t.disconnect();
    assert_eq!(t.streams().err(), Some(TransportError::NotConnected));
    assert_eq!(t.check_can_connect(), Ok(()));
}

#[test]
fn no_protector_protects_nothing() {
    let p: SocketProtector<fn(i32) -> Result<(), String>> = SocketProtector::new();
    assert!(p.protect_socket_fd(3).is_ok());
    assert!(p.protect_socket2(3).is_ok());
}

#[test]
fn protector_answer_is_the_outcome() {
    let mut p: SocketProtector<Box<dyn Fn(i32) -> Result<(), String>>> = SocketProtector::new();
    p.set_socket_protector(Some(Box::new(|fd| if fd == 7 { Err("denied".to_string()) } else { Ok(()) })));
    assert!(p.protect_socket_fd(3).is_ok());
    let e = p.protect_socket_fd(7).unwrap_err();
    assert_eq!(e.fd, 7);
    assert_eq!(e.reason, "denied");
    assert!(p.protect_socket2(7).is_err());
    p.set_socket_protector(None);
    assert!(p.protect_socket_fd(7).is_ok());
}

#[test]
fn connect_error_is_last_failure() {
    assert_eq!(last_connect_error(Some("refused"), "none"), "refused");
    assert_eq!(last_connect_error(None::<&str>, "none"), "none");
}

#[test]
fn transport_messages() {
    assert_eq!(transport_error_message(TransportError::AlreadyConnected), "Already connected");
    assert_eq!(transport_error_message(TransportError::NotConnected), "Not connected");
}

#[test]
fn first_connection_wins() {
    let attempts: Vec<Result<u32, &str>> = vec![Err("a"), Ok(1), Err("b"), Ok(2)];
    let mut last = None;
    let mut connected = None;
    for attempt in attempts {
        if let Some(s) = record_connect_attempt(&mut last, attempt) {
            connected = Some(s);
            break;
        }
    }
    assert_eq!(connected, Some(1));
    assert_eq!(last, Some("a"));

    let mut last = None;
    for attempt in vec![Err::<u32, &str>("a"), Err("b")] {
        assert_eq!(record_connect_attempt(&mut last, attempt), None);
    }
    assert_eq!(last_connect_error(last, "none"), "b");
}

#[test]
fn udp_socket_plans() {
    assert_eq!(udp_socket_plan(true, true), UdpSocketPlan::V4);
    assert_eq!(udp_socket_plan(true, false), UdpSocketPlan::V4);
    assert_eq!(udp_socket_plan(false, true), UdpSocketPlan::V6 { only_v6: false, must_succeed: false });
    assert_eq!(udp_socket_plan(false, false), UdpSocketPlan::V6 { only_v6: true, must_succeed: true });
}

#[test]
fn protect_with_taken_protector() {
    let mut p: SocketProtector<std::sync::Arc<dyn Fn(i32) -> Result<(), String>>> = SocketProtector::new();
    assert!(p.installed().is_none());
    p.set_socket_protector(Some(std::sync::Arc::new(|fd| if fd < 0 { Err("bad".to_string()) } else { Ok(()) })));
    let taken = p.installed().cloned().map(|f| move |fd: i32| f(fd));
    assert!(protect_fd_with(taken.as_ref(), 1).is_ok());
    assert_eq!(protect_fd_with(taken.as_ref(), -1).unwrap_err().fd, -1);
    assert!(protect_fd_with(None::<&fn(i32) -> Result<(), String>>, -1).is_ok());
}
